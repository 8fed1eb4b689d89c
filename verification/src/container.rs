//! Container images holding a web browser, and their selection for a capabilities request.

use crate::text::{chars_of, lemma_split_at_char, spec_split_once, split_into_two, text_starts_with};
use crate::webdriver::browser::{
    Browser, BrowserParseError, BrowserView, browser_separator, law_browser_roundtrip, spec_parse_browser,
};
use crate::webdriver::capabilities::{
    Capabilities, CapabilitiesRequest, CapabilitiesRequestView, CapabilitiesView, capability_views,
    empty_capabilities, merge_capabilities, request_sets,
};
use vstd::prelude::*;
use vstd::string::*;

verus! {

/// Error thrown while parsing a container image definition from string
#[derive(Debug, Clone, Copy, PartialEq, Eq, Structural)]
pub enum ContainerImageParseError {
    /// Missing = separator between image and browser definition
    MissingImageBrowserSeparator,
    /// At least one browser definition failed parsing
    BrowserDefinitionInvalid(BrowserParseError),
}

/// Definition of a container image containing a web browser, parsable from
/// `identifier=name::version`.
#[derive(Debug, Clone, Hash, PartialEq, Eq)]
pub struct ContainerImage {
    /// Combination of repository, image, and tag
    pub identifier: String,
    /// Browser contained within the image
    pub browser: Browser,
}

pub struct ContainerImageView {
    pub identifier: Seq<char>,
    pub browser: BrowserView,
}

impl View for ContainerImage {
    type V = ContainerImageView;

    open spec fn view(&self) -> ContainerImageView {
        ContainerImageView { identifier: self.identifier@, browser: self.browser@ }
    }
}

/// Set of container images, parsable from definitions separated by `,`
#[derive(Debug, Clone)]
pub struct ContainerImageSet(pub Vec<ContainerImage>);

/// Views of a list of images.
pub open spec fn image_views(v: Seq<ContainerImage>) -> Seq<ContainerImageView> {
    v.map_values(|i: ContainerImage| i@)
}

// ------------------------------------------------------------------ parsing rules

/// An image definition: the identifier before the first `=`, a browser definition after it.
pub open spec fn spec_parse_image(s: Seq<char>) -> Result<ContainerImageView, ContainerImageParseError> {
    match spec_split_once(s, seq!['=']) {
        Some((identifier, raw_browser)) => match spec_parse_browser(raw_browser) {
            Ok(browser) => Ok(ContainerImageView { identifier, browser }),
            Err(e) => Err(ContainerImageParseError::BrowserDefinitionInvalid(e)),
        },
        None => Err(ContainerImageParseError::MissingImageBrowserSeparator),
    }
}

/// `images` put in front of the result of parsing the rest.
pub open spec fn prepend_images(
    images: Seq<ContainerImageView>,
    rest: Result<Seq<ContainerImageView>, ContainerImageParseError>,
) -> Result<Seq<ContainerImageView>, ContainerImageParseError> {
    match rest {
        Ok(v) => Ok(images + v),
        Err(e) => Err(e),
    }
}

/// A comma separated list of image definitions: each piece between commas (empty pieces
/// included) is an image definition; the first piece that fails decides the error.
pub open spec fn spec_parse_image_list(s: Seq<char>) -> Result<Seq<ContainerImageView>, ContainerImageParseError>
    decreases s.len(),
{
    match s.index_of_first(',') {
        Some(j) => {
            proof {
                s.index_of_first_ensures(',');
            }
            match spec_parse_image(s.take(j)) {
                Ok(img) => prepend_images(seq![img], spec_parse_image_list(s.skip(j + 1))),
                Err(e) => Err(e),
            }
        },
        None => match spec_parse_image(s) {
            Ok(img) => Ok(seq![img]),
            Err(e) => Err(e),
        },
    }
}

/// The pieces of a text between commas, empty pieces included.
pub open spec fn comma_pieces(s: Seq<char>) -> Seq<Seq<char>>
    decreases s.len(),
{
    match s.index_of_first(',') {
        Some(j) => {
            proof {
                s.index_of_first_ensures(',');
            }
            seq![s.take(j)] + comma_pieces(s.skip(j + 1))
        },
        None => seq![s],
    }
}

/// Number of commas in a text.
pub open spec fn comma_count(s: Seq<char>) -> nat
    decreases s.len(),
{
    if s.len() == 0 {
        0
    } else {
        (if s[0] == ',' { 1nat } else { 0nat }) + comma_count(s.drop_first())
    }
}

// ------------------------------------------------------------------ matching rules

/// The image satisfies the browser name (equal) and version (prefix) that the set requests.
pub open spec fn image_matches(c: CapabilitiesView, img: ContainerImageView) -> bool {
    &&& match c.browser_name {
        Some(n) => n == img.browser.name,
        None => true,
    }
    &&& match c.browser_version {
        Some(v) => v.is_prefix_of(img.browser.version),
        None => true,
    }
}

/// Index of the first image at or after `k` that satisfies the set.
pub open spec fn first_matching_from(images: Seq<ContainerImageView>, c: CapabilitiesView, k: int) -> Option<int>
    decreases images.len() - k,
{
    if k < 0 || k >= images.len() {
        None
    } else if image_matches(c, images[k]) {
        Some(k)
    } else {
        first_matching_from(images, c, k + 1)
    }
}

/// The first image if there is one.
pub open spec fn first_image(images: Seq<ContainerImageView>) -> Option<int> {
    if images.len() > 0 {
        Some(0)
    } else {
        None
    }
}

/// Image chosen for one capability set: the first image when neither browser name nor
/// version is requested, otherwise the first image satisfying both.
pub open spec fn image_for_set(images: Seq<ContainerImageView>, c: CapabilitiesView) -> Option<int> {
    if c.browser_name is None && c.browser_version is None {
        first_image(images)
    } else {
        first_matching_from(images, c, 0)
    }
}

/// Image chosen by the first set, at or after `k`, for which an image is found.
pub open spec fn image_for_sets(images: Seq<ContainerImageView>, sets: Seq<CapabilitiesView>, k: int) -> Option<int>
    decreases sets.len() - k,
{
    if k < 0 || k >= sets.len() {
        None
    } else {
        match image_for_set(images, sets[k]) {
            Some(i) => Some(i),
            None => image_for_sets(images, sets, k + 1),
        }
    }
}

/// Index of the image that a request selects: the first image when the request yields no
/// capability set, otherwise the image chosen by the first set that finds one.
pub open spec fn selected_image(images: Seq<ContainerImageView>, request: CapabilitiesRequestView) -> Option<int> {
    let sets = request_sets(request);
    if sets.len() == 0 {
        first_image(images)
    } else {
        image_for_sets(images, sets, 0)
    }
}

// ------------------------------------------------------------------ laws

/// An image written as `identifier=name::version` parses back to its parts, as long as the
/// identifier has no `=` and the browser name no `:`.
pub proof fn law_image_roundtrip(identifier: Seq<char>, name: Seq<char>, version: Seq<char>)
    requires
        forall|i: int| 0 <= i < identifier.len() ==> identifier[i] != '=',
        forall|i: int| 0 <= i < name.len() ==> name[i] != ':',
    ensures
        spec_parse_image(identifier + seq!['='] + (name + browser_separator() + version))
            == Ok::<ContainerImageView, ContainerImageParseError>(
            ContainerImageView { identifier, browser: BrowserView { name, version } },
        ),
{
    lemma_split_at_char(identifier, '=', name + browser_separator() + version);
    law_browser_roundtrip(name, version);
}

/// Commas of two joined texts are the commas of each.
proof fn lemma_comma_count_add(a: Seq<char>, b: Seq<char>)
    ensures
        comma_count(a + b) == comma_count(a) + comma_count(b),
    decreases a.len(),
{
    if a.len() > 0 {
        assert((a + b).drop_first() =~= a.drop_first() + b);
        lemma_comma_count_add(a.drop_first(), b);
    } else {
        assert(a + b =~= b);
    }
}

/// A text without a comma counts none.
proof fn lemma_comma_count_none(a: Seq<char>)
    requires
        forall|i: int| 0 <= i < a.len() ==> a[i] != ',',
    ensures
        comma_count(a) == 0,
    decreases a.len(),
{
    if a.len() > 0 {
        lemma_comma_count_none(a.drop_first());
    }
}

/// An image list has one piece more than it has commas, it parses exactly when every
/// piece parses as an image, and then it holds one image per piece, in order.
pub proof fn law_image_list_pieces(s: Seq<char>)
    ensures
        comma_pieces(s).len() == comma_count(s) + 1,
        spec_parse_image_list(s) is Ok <==> forall|k: int|
            0 <= k < comma_pieces(s).len() ==> spec_parse_image(#[trigger] comma_pieces(s)[k]) is Ok,
        spec_parse_image_list(s) matches Ok(v) ==> v.len() == comma_pieces(s).len() && forall|k: int|
            0 <= k < v.len() ==> spec_parse_image(#[trigger] comma_pieces(s)[k]) == Ok::<
                ContainerImageView,
                ContainerImageParseError,
            >(v[k]),
    decreases s.len(),
{
    s.index_of_first_ensures(',');
    match s.index_of_first(',') {
        Some(j) => {
            let rest = s.skip(j + 1);
            law_image_list_pieces(rest);
            assert(s =~= s.take(j) + (seq![','] + rest));
            lemma_comma_count_add(s.take(j), seq![','] + rest);
            lemma_comma_count_add(seq![','], rest);
            assert forall|i: int| 0 <= i < s.take(j).len() implies s.take(j)[i] != ',' by {
                assert(s.take(j)[i] == s[i]);
            }
            lemma_comma_count_none(s.take(j));
            assert(seq![','].drop_first() =~= Seq::<char>::empty());
            assert(comma_count(Seq::<char>::empty()) == 0);
            assert(comma_count(seq![',']) == 1);
            assert(comma_pieces(s).len() == 1 + comma_pieces(rest).len());
            let pieces = comma_pieces(s);
            assert(pieces == seq![s.take(j)] + comma_pieces(rest));
            assert forall|k: int| 1 <= k < pieces.len() implies #[trigger] pieces[k] == comma_pieces(rest)[k - 1] by {}
            if spec_parse_image_list(s) is Ok {
                assert forall|k: int| 0 <= k < pieces.len() implies spec_parse_image(#[trigger] pieces[k]) is Ok by {
                    if k > 0 {
                        assert(pieces[k] == comma_pieces(rest)[k - 1]);
                    }
                }
            }
            if forall|k: int| 0 <= k < pieces.len() ==> spec_parse_image(#[trigger] pieces[k]) is Ok {
                assert(spec_parse_image(pieces[0]) is Ok);
                assert forall|k: int| 0 <= k < comma_pieces(rest).len() implies spec_parse_image(
                    #[trigger] comma_pieces(rest)[k],
                ) is Ok by {
                    assert(pieces[k + 1] == comma_pieces(rest)[k]);
                }
            }
            match spec_parse_image_list(s) {
                Ok(v) => {
                    let img = spec_parse_image(s.take(j))->Ok_0;
                    let w = spec_parse_image_list(rest)->Ok_0;
                    assert(v == seq![img] + w);
                    assert forall|k: int| 0 <= k < v.len() implies spec_parse_image(#[trigger] pieces[k]) == Ok::<
                        ContainerImageView,
                        ContainerImageParseError,
                    >(v[k]) by {
                        if k > 0 {
                            assert(pieces[k] == comma_pieces(rest)[k - 1]);
                            assert(v[k] == w[k - 1]);
                        }
                    }
                },
                Err(_) => {},
            }
        },
        None => {
            assert forall|i: int| 0 <= i < s.len() implies s[i] != ',' by {
                if s[i] == ',' {
                    assert(s.contains(','));
                }
            }
            lemma_comma_count_none(s);
            assert(comma_pieces(s) == seq![s]);
            assert(comma_pieces(s)[0] == s);
        },
    }
}

/// The first image at or after `k` that satisfies the set is found, and none is found
/// where no image from `k` on satisfies it.
proof fn lemma_first_matching_is_first(images: Seq<ContainerImageView>, c: CapabilitiesView, k: int)
    requires
        0 <= k,
    ensures
        match first_matching_from(images, c, k) {
            Some(i) => k <= i < images.len() && image_matches(c, images[i]) && forall|j: int|
                k <= j < i ==> !image_matches(c, #[trigger] images[j]),
            None => forall|j: int| k <= j < images.len() ==> !image_matches(c, #[trigger] images[j]),
        },
    decreases images.len() - k,
{
    if k < images.len() && !image_matches(c, images[k]) {
        lemma_first_matching_is_first(images, c, k + 1);
    }
}

/// The image chosen for a capability set is the first image that satisfies the browser
/// name (equal) and version (prefix) the set requests; none is chosen where no image
/// satisfies them. A set requesting neither is satisfied by every image, so it gets the
/// first image.
pub proof fn law_image_for_set_is_first_satisfying(images: Seq<ContainerImageView>, c: CapabilitiesView)
    ensures
        match image_for_set(images, c) {
            Some(i) => 0 <= i < images.len() && image_matches(c, images[i]) && forall|j: int|
                0 <= j < i ==> !image_matches(c, #[trigger] images[j]),
            None => forall|j: int| 0 <= j < images.len() ==> !image_matches(c, #[trigger] images[j]),
        },
{
    lemma_first_matching_is_first(images, c, 0);
}

/// A request with a single capability set selects the first image satisfying it (see
/// `image_matches`), whatever the set requests.
pub proof fn law_single_set_selects_first_satisfying(images: Seq<ContainerImageView>, request: CapabilitiesRequestView)
    requires
        request_sets(request).len() == 1,
    ensures
        match selected_image(images, request) {
            Some(i) => 0 <= i < images.len() && image_matches(request_sets(request)[0], images[i]) && forall|j: int|
                0 <= j < i ==> !image_matches(request_sets(request)[0], #[trigger] images[j]),
            None => forall|j: int| 0 <= j < images.len() ==> !image_matches(request_sets(request)[0], #[trigger] images[j]),
        },
{
    let sets = request_sets(request);
    assert(image_for_sets(images, sets, 1) is None);
    law_image_for_set_is_first_satisfying(images, sets[0]);
}

/// Helper: an image chosen for a set is an index of the list, and it is the first image or
/// one that satisfies the set.
proof fn lemma_first_matching_sound(images: Seq<ContainerImageView>, c: CapabilitiesView, k: int)
    ensures
        first_matching_from(images, c, k) matches Some(i) ==> k <= i < images.len() && image_matches(c, images[i]),
    decreases images.len() - k,
{
    if 0 <= k < images.len() && !image_matches(c, images[k]) {
        lemma_first_matching_sound(images, c, k + 1);
    }
}

proof fn lemma_sets_sound(images: Seq<ContainerImageView>, sets: Seq<CapabilitiesView>, k: int)
    ensures
        image_for_sets(images, sets, k) matches Some(i) ==> 0 <= i < images.len() && (i == 0 || exists|j: int|
            0 <= j < sets.len() && #[trigger] image_matches(sets[j], images[i])),
    decreases sets.len() - k,
{
    if 0 <= k < sets.len() {
        lemma_first_matching_sound(images, sets[k], 0);
        match image_for_set(images, sets[k]) {
            Some(i) => {
                if i != 0 {
                    assert(image_matches(sets[k], images[i]));
                }
            },
            None => {
                lemma_sets_sound(images, sets, k + 1);
            },
        }
    }
}

/// The image selected for a request is one of the images, and unless it is the first image
/// (the fallback for sets without browser requirements) it satisfies the browser name and
/// version of one of the request's capability sets.
pub proof fn law_selected_image_satisfies_request(images: Seq<ContainerImageView>, request: CapabilitiesRequestView)
    ensures
        selected_image(images, request) matches Some(i) ==> 0 <= i < images.len() && (i == 0 || exists|j: int|
            0 <= j < request_sets(request).len() && #[trigger] image_matches(request_sets(request)[j], images[i])),
{
    lemma_sets_sound(images, request_sets(request), 0);
}

/// A request without any capabilities selects the first image (none if there is none).
pub proof fn law_empty_request_selects_first(images: Seq<ContainerImageView>)
    ensures
        selected_image(images, CapabilitiesRequestView { first_match: None, always_match: None }) == first_image(images),
{
    let req = CapabilitiesRequestView { first_match: None, always_match: None };
    let sets = request_sets(req);
    assert(sets.len() == 1);
    assert(sets[0] == merge_capabilities(empty_capabilities(), empty_capabilities()));
    assert(sets[0].browser_name is None && sets[0].browser_version is None);
    if images.len() == 0 {
        assert(image_for_sets(images, sets, 1) is None);
    }
}

/// With a browser name requested, the first image of that browser whose version starts
/// with the requested version is selected when the request has a single capability set.
pub proof fn law_single_set_selects_first_match(images: Seq<ContainerImageView>, request: CapabilitiesRequestView)
    requires
        request_sets(request).len() == 1,
        request_sets(request)[0].browser_name is Some,
    ensures
        selected_image(images, request) == first_matching_from(images, request_sets(request)[0], 0),
{
    let sets = request_sets(request);
    assert(image_for_sets(images, sets, 1) is None);
}

// ------------------------------------------------------------------ executable code

impl ContainerImage {
    /// Parses a definition of the form `identifier=name::version`.
    pub fn from_str(s: &str) -> (r: Result<ContainerImage, ContainerImageParseError>)
        ensures
            match r {
                Ok(img) => spec_parse_image(s@) == Ok::<ContainerImageView, ContainerImageParseError>(img@),
                Err(e) => spec_parse_image(s@) == Err::<ContainerImageView, ContainerImageParseError>(e),
            },
    {
        let sep = "=";
        proof {
            reveal_strlit("=");
        }
        assert(sep@ =~= seq!['=']);
        match split_into_two(s, sep) {
            Some((identifier, raw_browser)) => match Browser::from_str(raw_browser.as_str()) {
                Ok(browser) => Ok(ContainerImage { identifier, browser }),
                Err(e) => Err(ContainerImageParseError::BrowserDefinitionInvalid(e)),
            },
            None => Err(ContainerImageParseError::MissingImageBrowserSeparator),
        }
    }
}

impl std::str::FromStr for ContainerImage {
    type Err = ContainerImageParseError;

    fn from_str(s: &str) -> (r: Result<ContainerImage, ContainerImageParseError>)
        ensures
            match r {
                Ok(img) => spec_parse_image(s@) == Ok::<ContainerImageView, ContainerImageParseError>(img@),
                Err(e) => spec_parse_image(s@) == Err::<ContainerImageView, ContainerImageParseError>(e),
            },
    {
        ContainerImage::from_str(s)
    }
}

impl ContainerImageSet {
    /// Returns `true` if this set contains no images.
    pub fn is_empty(&self) -> (r: bool)
        ensures
            r == (self.0@.len() == 0),
    {
        self.0.len() == 0
    }

    /// Parses image definitions separated by `,`.
    pub fn from_str(s: &str) -> (r: Result<ContainerImageSet, ContainerImageParseError>)
        ensures
            match r {
                Ok(set) => spec_parse_image_list(s@) == Ok::<Seq<ContainerImageView>, ContainerImageParseError>(image_views(set.0@)),
                Err(e) => spec_parse_image_list(s@) == Err::<Seq<ContainerImageView>, ContainerImageParseError>(e),
            },
    {
        let cs = chars_of(s);
        let n = cs.len();
        let mut images: Vec<ContainerImage> = Vec::new();
        let mut start: usize = 0;
        assert(s@.skip(0) =~= s@);
        loop
            invariant
                n == s@.len(),
                cs@ == s@,
                start <= n,
                spec_parse_image_list(s@) == prepend_images(image_views(images@), spec_parse_image_list(s@.skip(start as int))),
            decreases n - start,
        {
            let mut i: usize = start;
            while i < n && cs[i] != ','
                invariant
                    n == s@.len(),
                    cs@ == s@,
                    start <= i <= n,
                    forall|k: int| start <= k < i ==> s@[k] != ',',
                decreases n - i,
            {
                i = i + 1;
            }
            let ghost rest = s@.skip(start as int);
            let piece = s.substring_char(start, i);
            assert(piece@ =~= rest.take(i - start));
            let parsed = ContainerImage::from_str(piece);
            proof {
                rest.index_of_first_ensures(',');
                if i < n {
                    let j = (i - start) as int;
                    assert(rest[j] == ',');
                    assert(rest.contains(','));
                    let idx = rest.index_of_first(',').unwrap();
                    if idx < j {
                        assert(rest[idx] == s@[start + idx]);
                    }
                    assert(idx == j);
                    assert(rest.skip(j + 1) =~= s@.skip(i + 1));
                } else {
                    assert forall|k: int| 0 <= k < rest.len() implies rest[k] != ',' by {
                        assert(rest[k] == s@[start + k]);
                    }
                    assert(!rest.contains(','));
                    assert(rest.take(i - start) =~= rest);
                }
            }
            match parsed {
                Err(e) => {
                    return Err(e);
                },
                Ok(img) => {
                    let ghost before = image_views(images@);
                    images.push(img);
                    assert(image_views(images@) =~= before + seq![img@]);
                    if i == n {
                        assert(image_views(images@) =~= before + seq![img@]);
                        return Ok(ContainerImageSet(images));
                    }
                    proof {
                        let tail = spec_parse_image_list(s@.skip(i + 1));
                        match tail {
                            Ok(v) => {
                                assert(before + (seq![img@] + v) =~= (before + seq![img@]) + v);
                            },
                            Err(_) => {},
                        }
                    }
                    start = i + 1;
                },
            }
        }
    }

    /// Retrieves the first image matching the given request (see `selected_image`):
    /// browser names are compared for equality, versions by prefix.
    pub fn match_against_capabilities(&self, request: CapabilitiesRequest) -> (r: Option<&ContainerImage>)
        ensures
            match selected_image(image_views(self.0@), request@) {
                Some(i) => r is Some && 0 <= i < self.0@.len() && r->0 == self.0@[i],
                None => r is None,
            },
    {
        let ghost images = image_views(self.0@);
        let ghost req = request@;
        let sets = request.into_sets();
        let ghost set_views = capability_views(sets@);
        assert(set_views == request_sets(req));
        if sets.len() == 0 {
            if self.0.len() > 0 {
                return Some(&self.0[0]);
            }
            return None;
        }
        let mut k: usize = 0;
        while k < sets.len()
            invariant
                0 <= k <= sets@.len(),
                images == image_views(self.0@),
                set_views == capability_views(sets@),
                set_views == request_sets(req),
                req == request@,
                set_views.len() > 0,
                image_for_sets(images, set_views, 0) == image_for_sets(images, set_views, k as int),
            decreases sets@.len() - k,
        {
            let set = &sets[k];
            assert(set@ == set_views[k as int]);
            if set.browser_name.is_none() && set.browser_version.is_none() {
                if self.0.len() > 0 {
                    assert(image_for_sets(images, set_views, k as int) == Some(0int));
                    return Some(&self.0[0]);
                }
            } else {
                let mut j: usize = 0;
                while j < self.0.len()
                    invariant
                        0 <= j <= self.0@.len(),
                        images == image_views(self.0@),
                        set@ == set_views[k as int],
                        k < set_views.len(),
                        set_views == request_sets(req),
                        req == request@,
                        !(set@.browser_name is None && set@.browser_version is None),
                        image_for_sets(images, set_views, 0) == image_for_sets(images, set_views, k as int),
                        first_matching_from(images, set@, 0) == first_matching_from(images, set@, j as int),
                    decreases self.0@.len() - j,
                {
                    let image = &self.0[j];
                    assert(image@ == images[j as int]);
                    let mut browser_match = true;
                    let mut version_match = true;
                    match &set.browser_name {
                        Some(name) => {
                            browser_match = name.eq(&image.browser.name);
                        },
                        None => {},
                    }
                    match &set.browser_version {
                        Some(version) => {
                            version_match = text_starts_with(image.browser.version.as_str(), version.as_str());
                        },
                        None => {},
                    }
                    if browser_match && version_match {
                        assert(image_matches(set@, images[j as int]));
                        assert(first_matching_from(images, set@, j as int) == Some(j as int));
                        assert(image_for_sets(images, set_views, k as int) == Some(j as int));
                        return Some(image);
                    }
                    j = j + 1;
                }
            }
            k = k + 1;
        }
        None
    }
}

impl std::str::FromStr for ContainerImageSet {
    type Err = ContainerImageParseError;

    fn from_str(s: &str) -> (r: Result<ContainerImageSet, ContainerImageParseError>)
        ensures
            match r {
                Ok(set) => spec_parse_image_list(s@) == Ok::<Seq<ContainerImageView>, ContainerImageParseError>(image_views(set.0@)),
                Err(e) => spec_parse_image_list(s@) == Err::<Seq<ContainerImageView>, ContainerImageParseError>(e),
            },
    {
        ContainerImageSet::from_str(s)
    }
}

} // verus!
