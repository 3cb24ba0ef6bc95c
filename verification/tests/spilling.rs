use smallvec::{SmallVec, SmallVec16, SmallVec2};

// The strings are heap allocated, so that an element that is freed twice shows up.

#[test]
pub fn test_inline() {
    let mut v = SmallVec16::new();
    v.push("hello".to_owned());
    v.push("there".to_owned());
    assert_eq!(v.as_slice(), &[
        "hello".to_owned(),
        "there".to_owned(),
    ][..]);
}

#[test]
pub fn test_spill() {
    let mut v = SmallVec2::new();
    v.push("hello".to_owned());
    v.push("there".to_owned());
    v.push("burma".to_owned());
    v.push("shave".to_owned());
    assert_eq!(v.as_slice(), &[
        "hello".to_owned(),
        "there".to_owned(),
        "burma".to_owned(),
        "shave".to_owned(),
    ][..]);
}

#[test]
pub fn test_double_spill() {
    let mut v = SmallVec2::new();
    v.push("hello".to_owned());
    v.push("there".to_owned());
    v.push("burma".to_owned());
    v.push("shave".to_owned());
    v.push("hello".to_owned());
    v.push("there".to_owned());
    v.push("burma".to_owned());
    v.push("shave".to_owned());
    assert_eq!(v.as_slice(), &[
        "hello".to_owned(),
        "there".to_owned(),
        "burma".to_owned(),
        "shave".to_owned(),
        "hello".to_owned(),
        "there".to_owned(),
        "burma".to_owned(),
        "shave".to_owned(),
    ][..]);
}
