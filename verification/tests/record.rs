use idioms::record::DemoObj;

#[test]
fn record_keeps_its_name() {
    let dob = DemoObj::new("Frank");
    assert_eq!(dob.name(), "Frank");
}

#[test]
fn clone_has_the_same_name() {
    let dob = DemoObj::new("Frank");
    let cdob = dob.clone();
    assert_eq!(cdob.name(), "Frank");
    assert_eq!(dob.name(), cdob.name());
}

#[test]
fn clone_outlives_its_source() {
    let cdob = {
        let dob = DemoObj::new("Frank");
        dob.clone()
    };
    assert_eq!(cdob.name(), "Frank");
}

#[test]
fn record_with_empty_or_wide_name() {
    assert_eq!(DemoObj::new("").name(), "");
    assert_eq!(DemoObj::new("京 é").name(), "京 é");
}

#[test]
fn record_debug_form_shows_the_name() {
    let dob = DemoObj::new("Frank");
    assert_eq!(format!("{:?}", dob), "DemoObj { name: \"Frank\" }");
}
