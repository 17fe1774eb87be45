use api_version::versions::{any_prefix_of, contains, is_strictly_increasing};
use api_version::{All, ApiVersionLayer, NewApiVersionLayerError};

#[test]
fn new_takes_a_single_version() {
    let layer = ApiVersionLayer::new([7], All).unwrap();
    assert_eq!(layer.versions(), &[7]);
    assert_eq!(layer.default_version(), 7);
}

#[test]
fn new_keeps_the_versions_as_given() {
    let layer = ApiVersionLayer::new([0, 1, 2], All).unwrap();
    assert_eq!(layer.versions(), &[0, 1, 2]);
    let layer = ApiVersionLayer::new([3, 10, 99, 100, 65535], All).unwrap();
    assert_eq!(layer.versions(), &[3, 10, 99, 100, 65535]);
}

#[test]
fn default_version_is_the_last() {
    assert_eq!(ApiVersionLayer::new([0, 1], All).unwrap().default_version(), 1);
    assert_eq!(ApiVersionLayer::new([0, 1, 2], All).unwrap().default_version(), 2);
    assert_eq!(ApiVersionLayer::new([2, 5, 40000], All).unwrap().default_version(), 40000);
}

#[test]
fn default_version_is_the_greatest() {
    let layer = ApiVersionLayer::new([1, 4, 9, 16], All).unwrap();
    let default = layer.default_version();
    assert!(layer.versions().iter().all(|version| *version <= default));
    assert!(layer.contains(default));
}

#[test]
fn new_refuses_no_versions() {
    let result = ApiVersionLayer::new([], All);
    assert!(matches!(result, Err(NewApiVersionLayerError::Empty)));
}

#[test]
fn new_refuses_a_repeated_version() {
    let result = ApiVersionLayer::new([0, 1, 1], All);
    assert!(matches!(result, Err(NewApiVersionLayerError::NotIncreasing)));
    let result = ApiVersionLayer::new([0, 0], All);
    assert!(matches!(result, Err(NewApiVersionLayerError::NotIncreasing)));
}

#[test]
fn new_refuses_a_falling_version() {
    let result = ApiVersionLayer::new([1, 0], All);
    assert!(matches!(result, Err(NewApiVersionLayerError::NotIncreasing)));
    let result = ApiVersionLayer::new([0, 2, 1, 3], All);
    assert!(matches!(result, Err(NewApiVersionLayerError::NotIncreasing)));
    let result = ApiVersionLayer::new([0, 1, 2, 3, 2], All);
    assert!(matches!(result, Err(NewApiVersionLayerError::NotIncreasing)));
}

#[test]
fn error_messages() {
    assert_eq!(NewApiVersionLayerError::Empty.message(), "versions must not be empty");
    assert_eq!(
        NewApiVersionLayerError::NotIncreasing.message(),
        "versions must be strictly monotonically increasing"
    );
}

#[test]
fn contains_finds_supported_versions_only() {
    let layer = ApiVersionLayer::new([0, 1, 5], All).unwrap();
    assert!(layer.contains(0));
    assert!(layer.contains(1));
    assert!(layer.contains(5));
    assert!(!layer.contains(2));
    assert!(!layer.contains(4));
    assert!(!layer.contains(6));
    assert!(!layer.contains(65535));
}

#[test]
fn collides_is_a_plain_prefix_test() {
    let layer = ApiVersionLayer::new([0, 1], All).unwrap();
    assert!(layer.collides("/v0"));
    assert!(layer.collides("/v0/test"));
    assert!(layer.collides("/v0x"));
    assert!(layer.collides("/v1"));
    assert!(layer.collides("/v10/test"));
    assert!(!layer.collides("/v2/test"));
    assert!(!layer.collides("/"));
    assert!(!layer.collides("/v"));
    assert!(!layer.collides("/test/v0"));
    assert!(!layer.collides("v0/test"));
    assert!(!layer.collides("/V0/test"));
    assert!(!layer.collides(""));
}

#[test]
fn collides_with_longer_numbers() {
    let layer = ApiVersionLayer::new([12, 345], All).unwrap();
    assert!(layer.collides("/v12"));
    assert!(layer.collides("/v123"));
    assert!(layer.collides("/v345/x"));
    assert!(!layer.collides("/v1"));
    assert!(!layer.collides("/v34"));
    assert!(!layer.collides("/v3/45"));
}

#[test]
fn layer_keeps_versions_inner_and_filter() {
    let layer = ApiVersionLayer::new([0, 1], All).unwrap();
    let service = layer.layer("inner");
    assert_eq!(service.versions(), &[0, 1]);
    assert_eq!(*service.inner(), "inner");
    let twin = service.clone();
    assert_eq!(twin.versions(), &[0, 1]);
    assert_eq!(twin.into_inner(), "inner");
}

#[test]
fn inner_mut_changes_the_service_inside() {
    let layer = ApiVersionLayer::new([0, 1], All).unwrap();
    let mut service = layer.layer(1u32);
    *service.inner_mut() += 41;
    assert_eq!(*service.inner(), 42);
    assert_eq!(service.versions(), &[0, 1]);
}

#[test]
fn layer_clone_keeps_the_versions() {
    let layer = ApiVersionLayer::new([2, 3], All).unwrap();
    let twin = layer.clone();
    assert_eq!(twin.versions(), layer.versions());
    assert_eq!(twin.default_version(), 3);
}

#[test]
fn strictly_increasing_lists() {
    assert!(is_strictly_increasing(&[]));
    assert!(is_strictly_increasing(&[5]));
    assert!(is_strictly_increasing(&[0, 1, 2]));
    assert!(is_strictly_increasing(&[0, 65535]));
    assert!(!is_strictly_increasing(&[1, 1]));
    assert!(!is_strictly_increasing(&[0, 2, 1]));
    assert!(!is_strictly_increasing(&[65535, 0]));
}

#[test]
fn slices_of_versions() {
    assert!(contains(&[0, 1, 2], 2));
    assert!(!contains(&[0, 1, 2], 3));
    assert!(!contains(&[], 0));
    assert!(any_prefix_of(&[0, 1], "/v1/x"));
    assert!(!any_prefix_of(&[0, 1], "/x/v1"));
    assert!(!any_prefix_of(&[], "/v1/x"));
}

#[derive(Clone)]
struct Tagged(u8);

impl api_version::ApiVersionFilter for Tagged {
    fn filter(&self, _uri: &api_version::RequestUri) -> bool {
        self.0 % 2 == 0
    }
}

#[test]
fn new_and_layer_keep_the_filter() {
    let layer = ApiVersionLayer::new([0, 1], Tagged(7)).unwrap();
    assert_eq!(layer.filter().0, 7);
    let service = layer.layer(());
    assert_eq!(service.filter().0, 7);
    assert_eq!(service.clone().filter().0, 7);
    assert_eq!(layer.clone().filter().0, 7);
}
