use webgrid::container::{ContainerImage, ContainerImageParseError, ContainerImageSet};
use webgrid::webdriver::browser::{Browser, BrowserParseError};
use webgrid::webdriver::capabilities::{
    Capabilities, CapabilitiesRequest, CapabilityError, RawCapabilitiesRequest, WebGridOptions,
    exclusive_combination, xor_option,
};

fn request_with_first_match(sets: Vec<Capabilities>) -> CapabilitiesRequest {
    CapabilitiesRequest { first_match: Some(sets), always_match: None }
}

fn browser_caps(name: Option<&str>, version: Option<&str>) -> Capabilities {
    let mut c = Capabilities::empty();
    c.browser_name = name.map(|n| n.to_string());
    c.browser_version = version.map(|v| v.to_string());
    c
}

#[test]
fn parse_image_string() {
    let image: ContainerImage = "webgrid/node-chrome=chrome::82".parse().unwrap();
    let browser = Browser { name: "chrome".into(), version: "82".into() };
    assert_eq!(image.identifier, "webgrid/node-chrome");
    assert_eq!(image.browser, browser)
}

#[test]
#[should_panic]
fn fail_on_missing_image_separator() {
    let _: Browser = "webgrid/node-chrome".parse().unwrap();
}

#[test]
fn parse_image_set_string_with_one_image() {
    let set: ContainerImageSet = "webgrid/node-chrome=chrome::82".parse().unwrap();
    assert_eq!(set.0.len(), 1);
}

#[test]
fn parse_image_set_string_with_multiple_images() {
    let set: ContainerImageSet = "image=browser::version,image2=browser2::version2".parse().unwrap();
    assert_eq!(set.0.len(), 2);
}

#[test]
fn match_empty_request() {
    let request = CapabilitiesRequest { first_match: None, always_match: None };
    let images: ContainerImageSet =
        "webgrid-node:firefox=firefox::68.7.0esr,webgrid-node:chrome=chrome::81.0.4044.122"
            .parse()
            .unwrap();

    assert_eq!(
        images.match_against_capabilities(request).map(|c| &c.identifier),
        Some(&"webgrid-node:firefox".to_owned())
    );
}

#[test]
fn match_browser_name_only() {
    let request = request_with_first_match(vec![browser_caps(Some("chrome"), None)]);
    let images: ContainerImageSet =
        "webgrid-node:firefox=firefox::68.7.0esr,webgrid-node:chrome=chrome::81.0.4044.122"
            .parse()
            .unwrap();

    assert_eq!(
        images.match_against_capabilities(request).map(|c| &c.identifier),
        Some(&"webgrid-node:chrome".to_owned())
    );
}

#[test]
fn match_browser_version_partially() {
    let request = request_with_first_match(vec![browser_caps(Some("chrome"), Some("60.0.4044"))]);
    let images: ContainerImageSet =
        "webgrid-node:chrome1=chrome::60.0.4044.122,webgrid-node:chrome2=chrome::81.0.4044.122"
            .parse()
            .unwrap();

    assert_eq!(
        images.match_against_capabilities(request).map(|c| &c.identifier),
        Some(&"webgrid-node:chrome1".to_owned())
    );
}

#[test]
fn match_browser_version_fully() {
    let request = request_with_first_match(vec![browser_caps(Some("chrome"), Some("81.0.4044.122"))]);
    let images: ContainerImageSet =
        "webgrid-node:chrome1=chrome::60.0.4044.122,webgrid-node:chrome2=chrome::81.0.4044.122"
            .parse()
            .unwrap();

    assert_eq!(
        images.match_against_capabilities(request).map(|c| &c.identifier),
        Some(&"webgrid-node:chrome2".to_owned())
    );
}

#[test]
fn parse_browser_string() {
    let browser: Browser = "chrome::82".parse().unwrap();
    assert_eq!(browser.name, "chrome");
    assert_eq!(browser.version, "82");
}

#[test]
#[should_panic]
fn fail_on_missing_separator() {
    let _: Browser = "chrome".parse().unwrap();
}

#[test]
fn missing_first_match() {
    let parsed = CapabilitiesRequest { first_match: None, always_match: Some(browser_caps(Some("chrome"), None)) };
    let sets = parsed.into_sets();

    let mut expected_capabilities = Capabilities::empty();
    expected_capabilities.browser_name = Some("chrome".to_string());

    assert_eq!(sets, vec![expected_capabilities]);
}

#[test]
fn missing_always_match() {
    let parsed = request_with_first_match(vec![browser_caps(Some("chrome"), None)]);
    let sets = parsed.into_sets();

    let mut expected_capabilities = Capabilities::empty();
    expected_capabilities.browser_name = Some("chrome".to_string());

    assert_eq!(sets, vec![expected_capabilities]);
}

// ---------------------------------------------------------------- further cases

#[test]
fn browser_version_keeps_later_separators() {
    let browser = Browser::from_str("chrome::82::beta").unwrap();
    assert_eq!(browser.name, "chrome");
    assert_eq!(browser.version, "82::beta");
}

#[test]
fn browser_with_empty_parts() {
    let browser = Browser::from_str("::").unwrap();
    assert_eq!(browser.name, "");
    assert_eq!(browser.version, "");
}

#[test]
fn browser_error_variant() {
    assert_eq!(Browser::from_str("chrome:82"), Err(BrowserParseError::MissingImageBrowserSeparator));
}

#[test]
fn image_error_variants() {
    assert_eq!(ContainerImage::from_str("webgrid/node-chrome"), Err(ContainerImageParseError::MissingImageBrowserSeparator));
    assert_eq!(
        ContainerImage::from_str("webgrid/node-chrome=chrome"),
        Err(ContainerImageParseError::BrowserDefinitionInvalid(BrowserParseError::MissingImageBrowserSeparator))
    );
}

#[test]
fn image_identifier_splits_at_first_equals() {
    let image = ContainerImage::from_str("a=b=c::d").unwrap();
    assert_eq!(image.identifier, "a");
    assert_eq!(image.browser.name, "b=c");
    assert_eq!(image.browser.version, "d");
}

#[test]
fn image_set_reports_first_bad_piece() {
    assert_eq!(
        ContainerImageSet::from_str("a=b::c,broken,d=e").unwrap_err(),
        ContainerImageParseError::MissingImageBrowserSeparator
    );
    assert_eq!(
        ContainerImageSet::from_str("a=b::c,").unwrap_err(),
        ContainerImageParseError::MissingImageBrowserSeparator
    );
    assert_eq!(
        ContainerImageSet::from_str("a=b::c,x=y").unwrap_err(),
        ContainerImageParseError::BrowserDefinitionInvalid(BrowserParseError::MissingImageBrowserSeparator)
    );
}

#[test]
fn image_set_keeps_order() {
    let set = ContainerImageSet::from_str("i1=b1::v1,i2=b2::v2,i3=b3::v3").unwrap();
    let ids: Vec<&str> = set.0.iter().map(|i| i.identifier.as_str()).collect();
    assert_eq!(ids, vec!["i1", "i2", "i3"]);
    assert!(!set.is_empty());
    assert!(ContainerImageSet(vec![]).is_empty());
}

#[test]
fn no_match_for_unknown_browser() {
    let images = ContainerImageSet::from_str("a=firefox::1,b=chrome::2").unwrap();
    let request = request_with_first_match(vec![browser_caps(Some("safari"), None)]);
    assert_eq!(images.match_against_capabilities(request), None);
}

#[test]
fn empty_image_set_matches_nothing() {
    let images = ContainerImageSet(vec![]);
    let request = CapabilitiesRequest { first_match: None, always_match: None };
    assert_eq!(images.match_against_capabilities(request), None);
}

#[test]
fn later_set_is_tried_when_earlier_finds_nothing() {
    let images = ContainerImageSet::from_str("a=firefox::1,b=chrome::2").unwrap();
    let request = request_with_first_match(vec![
        browser_caps(Some("safari"), None),
        browser_caps(Some("chrome"), Some("2")),
    ]);
    assert_eq!(images.match_against_capabilities(request).map(|c| c.identifier.as_str()), Some("b"));
}

#[test]
fn version_is_a_prefix_not_a_substring() {
    let images = ContainerImageSet::from_str("a=chrome::181.0").unwrap();
    let request = request_with_first_match(vec![browser_caps(Some("chrome"), Some("81"))]);
    assert_eq!(images.match_against_capabilities(request), None);
}

#[test]
fn empty_first_match_list_selects_first_image() {
    let images = ContainerImageSet::from_str("a=firefox::1,b=chrome::2").unwrap();
    let request = request_with_first_match(vec![]);
    assert_eq!(images.match_against_capabilities(request).map(|c| c.identifier.as_str()), Some("a"));
}

#[test]
fn conflicting_values_are_dropped_when_merging() {
    let always = browser_caps(Some("chrome"), Some("81"));
    let first = browser_caps(Some("firefox"), None);
    let merged = always.merge(first);
    assert_eq!(merged.browser_name, None);
    assert_eq!(merged.browser_version, Some("81".to_string()));
}

#[test]
fn merge_keeps_extensions_of_first() {
    let mut a = Capabilities::empty();
    a.extension_capabilities.push(("goog:chromeOptions".to_string(), "{}".to_string()));
    let mut b = Capabilities::empty();
    b.extension_capabilities.push(("moz:firefoxOptions".to_string(), "{}".to_string()));
    b.webgrid_options = Some(WebGridOptions::default());
    let merged = a.merge(b);
    assert_eq!(merged.extension_capabilities, vec![("goog:chromeOptions".to_string(), "{}".to_string())]);
    assert_eq!(merged.webgrid_options, Some(WebGridOptions { metadata: None, disable_recording: false }));
}

#[test]
fn into_sets_merges_each_first_match_entry() {
    let request = CapabilitiesRequest {
        first_match: Some(vec![browser_caps(Some("a"), None), browser_caps(Some("b"), None)]),
        always_match: Some(browser_caps(None, Some("1"))),
    };
    let sets = request.into_sets();
    assert_eq!(sets, vec![browser_caps(Some("a"), Some("1")), browser_caps(Some("b"), Some("1"))]);
}

#[test]
fn xor_and_exclusive_combination() {
    assert_eq!(xor_option(Some(1), None), Some(1));
    assert_eq!(xor_option(None, Some(2)), Some(2));
    assert_eq!(xor_option(Some(1), Some(2)), None);
    assert_eq!(xor_option::<i32>(None, None), None);
    assert_eq!(exclusive_combination(Some(1), Some(2)), Err(CapabilityError::ValueDefinedInBothSets));
    assert_eq!(exclusive_combination(None, Some(2)), Ok(Some(2)));
    assert_eq!(exclusive_combination::<i32>(None, None), Ok(None));
}

#[test]
fn raw_capabilities_keeps_text() {
    let raw = RawCapabilitiesRequest::new("{\"alwaysMatch\":{}}".to_string());
    assert_eq!(raw.as_str(), "{\"alwaysMatch\":{}}");
}

#[test]
fn extension_capabilities_compare_as_maps() {
    let mut a = Capabilities::empty();
    a.extension_capabilities = vec![("goog:a".into(), "1".into()), ("moz:b".into(), "\"x\"".into())];
    let mut b = Capabilities::empty();
    b.extension_capabilities = vec![("moz:b".into(), "\"x\"".into()), ("goog:a".into(), "1".into())];
    assert_eq!(a, b);
    b.extension_capabilities[0].1 = "\"y\"".into();
    assert_ne!(a, b);
}

#[test]
fn metadata_compares_as_map() {
    let mut a = WebGridOptions::default();
    a.metadata = Some(vec![("k".into(), "v".into()), ("n".into(), "m".into())]);
    let mut b = WebGridOptions::default();
    b.metadata = Some(vec![("n".into(), "m".into()), ("k".into(), "v".into())]);
    assert_eq!(a, b);
    b.disable_recording = true;
    assert_ne!(a, b);
    let mut c = WebGridOptions::default();
    c.metadata = None;
    assert_ne!(a, c);
}

#[test]
fn requests_compare_first_match_in_order() {
    let x = request_with_first_match(vec![browser_caps(Some("chrome"), None), browser_caps(Some("firefox"), None)]);
    let y = request_with_first_match(vec![browser_caps(Some("firefox"), None), browser_caps(Some("chrome"), None)]);
    assert_ne!(x, y);
    assert_eq!(x, x.clone());
}
