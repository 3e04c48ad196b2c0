use wfu::{BinaryProxy, DisplayProxy, FmtAs, FmtBy, FmtForm, FmtWith, Joined, LowerExpProxy,
    LowerHexProxy, MarkerProxy, OctalProxy, RenderError, TextSink, UpperHexProxy};

fn form_text<'a, T, D: wfu::FmtHandler<T>>(h: &wfu::TargetHolder<'a, T, D>, form: FmtForm)
    -> String {
    let mut f = TextSink::new();
    h.render_as(form, &mut f).unwrap();
    f.text_string()
}

#[test]
fn test_unsigned_bases() {
    let n = 42u32;
    assert_eq!(form_text(&n.fmt_as::<BinaryProxy>(), FmtForm::Binary), "101010");
    assert_eq!(form_text(&n.fmt_as::<OctalProxy>(), FmtForm::Octal), "52");
    assert_eq!(form_text(&n.fmt_as::<LowerHexProxy>(), FmtForm::LowerHex), "2a");
    assert_eq!(form_text(&n.fmt_as::<UpperHexProxy>(), FmtForm::UpperHex), "2A");
    assert_eq!(n.fmt_as::<DisplayProxy>().to_text().unwrap(), "42");
    assert_eq!(100u32.fmt_as::<LowerExpProxy>().to_text().unwrap(), "1e2");
    assert_eq!(0u32.fmt_as::<BinaryProxy>().to_text().unwrap(), "0");
}

#[test]
fn test_wide_integers() {
    let n = 1234567890123i64;
    assert_eq!(n.fmt_as::<DisplayProxy>().to_text().unwrap(), "1234567890123");
    assert_eq!((-n).fmt_as::<DisplayProxy>().to_text().unwrap(), "-1234567890123");
    assert_eq!(i64::MIN.fmt_as::<DisplayProxy>().to_text().unwrap(), "-9223372036854775808");
    assert_eq!(u64::MAX.fmt_as::<DisplayProxy>().to_text().unwrap(), "18446744073709551615");

    let h = 255u64;
    assert_eq!(form_text(&h.fmt_as::<UpperHexProxy>(), FmtForm::UpperHex), "FF");
    assert_eq!(form_text(&255i64.fmt_as::<BinaryProxy>(), FmtForm::Binary), "11111111");
    assert_eq!((-1i64).fmt_as::<UpperHexProxy>().to_text().unwrap(), "FFFFFFFFFFFFFFFF");
    assert_eq!(1200i64.fmt_as::<LowerExpProxy>().to_text().unwrap(), "1.2e3");
    assert_eq!(1200u64.fmt_as::<LowerExpProxy>().to_text().unwrap(), "1.2e3");
}

#[test]
fn test_negative_two_complement_bases() {
    let n = -1i32;
    assert_eq!(n.fmt_as::<UpperHexProxy>().to_text().unwrap(), "FFFFFFFF");
    assert_eq!(n.fmt_as::<OctalProxy>().to_text().unwrap(), "37777777777");
}

#[test]
fn test_display_forms_of_values() {
    assert_eq!((-7i32).fmt_as::<DisplayProxy>().to_text().unwrap(), "-7");
    assert_eq!("hi".fmt_as::<DisplayProxy>().to_text().unwrap(), "hi");
    assert_eq!(String::from("hi").fmt_as::<DisplayProxy>().to_text().unwrap(), "hi");
    assert_eq!(vec![1i32, -2, 3].fmt_as::<DisplayProxy>().to_text().unwrap(), "[1, -2, 3]");
}

#[test]
fn test_callable_failure_propagates() {
    let fail = |_v: &i32| -> Result<Vec<char>, RenderError> { Err(RenderError) };
    let holder = 5i32.fmt_with(&fail);
    assert_eq!(holder.to_text(), Err(RenderError));

    let mut f = TextSink::new();
    assert_eq!(holder.render(&mut f), Err(RenderError));
    assert_eq!(f.len(), 0);
}

#[test]
fn test_partial_output_on_failure() {
    let vec = vec!["a", "b"];
    let holder = vec.fmt_by(Joined(", "));
    let mut f = TextSink::bounded(2);
    assert_eq!(holder.render(&mut f), Err(RenderError));
    assert_eq!(f.text_string(), "a");
}

#[test]
fn test_marker_zero_repetitions() {
    let s = "test";
    let proxy = s.fmt_by(MarkerProxy('#', 0));
    assert_eq!(proxy.to_text().unwrap(), "#test");
}
