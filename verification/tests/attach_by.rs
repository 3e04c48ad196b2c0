use wfu::{DebugProxy, FmtAs, FmtBy, FmtForm, FmtWith, Joined, MarkerProxy, NumberDisplayProxy,
    RenderError, Repeat, TextSink, UpperExpProxy, UpperHexProxy, UppercaseStringProxy};

fn form_text<'a, T, D: wfu::FmtHandler<T>>(h: &wfu::TargetHolder<'a, T, D>, form: FmtForm)
    -> String {
    let mut f = TextSink::new();
    h.render_as(form, &mut f).unwrap();
    f.text_string()
}

#[test]
fn test_custom_extra() {
    let s = "test";
    let proxy = s.fmt_by(MarkerProxy('*', 3));
    assert_eq!(proxy.to_text().unwrap(), "*test***");
}

#[test]
fn fmt_by_test_fmt_with() {
    let value = 42i32;

    let show = |v: &i32| -> Result<Vec<char>, RenderError> {
        Ok(format!("Value: {}", v).chars().collect())
    };
    let holder = value.fmt_with(&show);
    assert_eq!(holder.to_text().unwrap(), "Value: 42");
    assert_eq!(form_text(&holder, FmtForm::Debug), "Value: 42");

    let hex = |v: &i32| -> Result<Vec<char>, RenderError> {
        Ok(format!("0x{:x}", v).chars().collect())
    };
    let holder = value.fmt_with(&hex);
    assert_eq!(form_text(&holder, FmtForm::LowerHex), "0x2a");
    assert_eq!(holder.to_text().unwrap(), "0x2a");
    assert_ne!(form_text(&holder, FmtForm::UpperHex), "0x2A");
}

#[test]
fn fmt_by_test_closure_lifetimes() {
    let prefix = "Prefix: ";
    let value = 42i32;

    let binding = move |v: &i32| -> Result<Vec<char>, RenderError> {
        Ok(format!("{}{}", prefix, v).chars().collect())
    };
    let holder = value.fmt_with(&binding);

    assert_eq!(holder.to_text().unwrap(), "Prefix: 42");
}

#[test]
fn fmt_by_test_basic_proxy() {
    let s = "hello world";
    let display_output = s.fmt_as::<UppercaseStringProxy>().to_text().unwrap();
    let debug_output = form_text(&s.fmt_as::<UppercaseStringProxy>(), FmtForm::Debug);

    assert_eq!(display_output, "HELLO WORLD");
    assert_eq!(debug_output, "HELLO WORLD");

    let n = 42i32;
    let display_output = n.fmt_as::<NumberDisplayProxy>().to_text().unwrap();
    let debug_output = form_text(&n.fmt_as::<NumberDisplayProxy>(), FmtForm::Debug);
    let binary_output = form_text(&n.fmt_as::<NumberDisplayProxy>(), FmtForm::Binary);
    let hex_output = form_text(&n.fmt_as::<NumberDisplayProxy>(), FmtForm::LowerHex);

    assert_eq!(display_output, "正42");
    assert_eq!(debug_output, "正42");
    assert_eq!(binary_output, "正42");
    assert_eq!(hex_output, "正42");

    assert_eq!((-10i32).fmt_as::<NumberDisplayProxy>().to_text().unwrap(), "负10");
    assert_eq!(0i32.fmt_as::<NumberDisplayProxy>().to_text().unwrap(), "零");
}

#[test]
fn fmt_by_test_multiple_formatting_traits() {
    let n = 255i32;

    assert_eq!(n.fmt_as::<NumberDisplayProxy>().to_text().unwrap(), "正255");
    assert_eq!(form_text(&n.fmt_as::<NumberDisplayProxy>(), FmtForm::Binary), "正255");
    assert_eq!(form_text(&n.fmt_as::<NumberDisplayProxy>(), FmtForm::LowerHex), "正255");
    assert_eq!(form_text(&n.fmt_as::<NumberDisplayProxy>(), FmtForm::UpperHex), "正255");
}

#[test]
fn fmt_by_test_lifetime_handling() {
    let s = String::from("hello");
    let borrowed = &s[..];
    let proxy = { borrowed.fmt_as::<UppercaseStringProxy>() };
    assert_eq!(proxy.to_text().unwrap(), "HELLO");
}

#[test]
fn fmt_by_test_reference_types() {
    let s = "hello";
    let s_ref = &s;
    let proxy = (*s_ref).fmt_as::<UppercaseStringProxy>();
    assert_eq!(proxy.to_text().unwrap(), "HELLO");

    let s_ref_ref = &&s;
    let proxy = (**s_ref_ref).fmt_as::<UppercaseStringProxy>();
    assert_eq!(proxy.to_text().unwrap(), "HELLO");
}

#[test]
fn fmt_by_test_edge_cases() {
    let empty: Vec<i32> = vec![];
    let proxy = empty.fmt_by(Joined(", "));
    assert_eq!(proxy.to_text().unwrap(), "");
    assert_eq!("".fmt_as::<UppercaseStringProxy>().to_text().unwrap(), "");

    let special = "hello\nworld\t!";
    let proxy = special.fmt_as::<UppercaseStringProxy>();
    assert!(proxy.to_text().unwrap().contains("HELLO"));
    assert!(proxy.to_text().unwrap().contains("WORLD"));

    assert_eq!(
        i32::MAX.fmt_as::<UpperExpProxy>().fmt_as::<NumberDisplayProxy>().to_text().unwrap(),
        format!("正{}", i32::MAX.fmt_as::<UpperExpProxy>().to_text().unwrap())
    );
    assert_eq!(
        i32::MAX.fmt_as::<UpperHexProxy>().fmt_as::<NumberDisplayProxy>().to_text().unwrap(),
        format!("正{}", i32::MAX.fmt_as::<UpperHexProxy>().to_text().unwrap())
    );

    assert_eq!(
        i32::MIN.fmt_as::<NumberDisplayProxy>().to_text().unwrap(),
        format!("负{}", i32::MIN.checked_abs().unwrap_or(i32::MAX))
    );
    assert_eq!(
        i32::MIN.fmt_as::<NumberDisplayProxy>().to_text().unwrap(),
        format!("负{}", i32::MIN.checked_abs().unwrap_or(i32::MAX))
    );

    assert_eq!(
        i32::MAX.fmt_by(Repeat(2)).to_text().unwrap(),
        format!("{}{}", i32::MAX, i32::MAX)
    );
}

#[test]
fn fmt_by_test_unicode_characters() {
    let s = "你好世界";
    let proxy = s.fmt_as::<UppercaseStringProxy>();
    assert_eq!(proxy.to_text().unwrap(), "你好世界");

    let s = "Hello 世界 123";
    let proxy = s.fmt_as::<UppercaseStringProxy>();
    assert_eq!(proxy.to_text().unwrap(), "HELLO 世界 123");
}

fn format_uppercase<T: AsRef<str>>(s: T) -> String {
    s.as_ref().fmt_as::<UppercaseStringProxy>().to_text().unwrap()
}

fn format_number(n: &i32) -> String {
    (*n).fmt_as::<NumberDisplayProxy>().to_text().unwrap()
}

#[test]
fn fmt_by_test_proxy_in_functions() {
    assert_eq!(format_uppercase("hello"), "HELLO");
    assert_eq!(format_number(&-5), "负5");
}

#[test]
fn fmt_by_test_fmt_as_inner_type() {
    let s = "hello";

    let proxy1 = s.fmt_as::<UppercaseStringProxy>();
    assert_eq!(proxy1.to_text().unwrap(), "HELLO");

    let string = String::from("world");
    let proxy2 = string.fmt_as::<UppercaseStringProxy>();
    assert_eq!(proxy2.to_text().unwrap(), "WORLD");
}

#[test]
fn fmt_by_test_combined_usage() {
    let data = vec![1i32, 2, 3];

    let describe = |v: &Vec<i32>| -> Result<Vec<char>, RenderError> {
        Ok(format!("数组: {}", (*v).fmt_as::<DebugProxy>().to_text()?).chars().collect())
    };
    let holder = data.fmt_with(&describe);
    assert_eq!(holder.to_text().unwrap(), "数组: [1, 2, 3]");

    let result = format!("大写: {}", "test".fmt_as::<UppercaseStringProxy>().to_text().unwrap());
    assert_eq!(result, "大写: TEST");
}

#[test]
fn fmt_by_test_performance_patterns() {
    let data = "performance test";
    let proxy = data.fmt_as::<UppercaseStringProxy>();

    let mut buffer = TextSink::new();
    proxy.render(&mut buffer).unwrap();
    assert_eq!(buffer.text_string(), "PERFORMANCE TEST");

    let n = 100i32;
    let proxy = n.fmt_as::<NumberDisplayProxy>();

    let s1 = proxy.to_text().unwrap();
    let s2 = form_text(&proxy, FmtForm::Binary);
    let s3 = form_text(&proxy, FmtForm::LowerHex);

    assert_eq!(s1, "正100");
    assert_eq!(s2, "正100");
    assert_eq!(s3, "正100");
}

#[test]
fn fmt_by_test_no_std_compatibility() {
    let mut buffer = TextSink::bounded(100);

    let s = "hello";
    s.fmt_as::<UppercaseStringProxy>().render(&mut buffer).unwrap();

    assert_eq!(buffer.text_string(), "HELLO");
}
