use wfu::{DebugProxy, FmtAs, FmtForm, FmtFn, FmtWith, NumberDisplayProxy, RenderError, TextSink,
    UppercaseStringProxy};

fn form_text<'a, T, D: wfu::FmtHandler<T>>(h: &wfu::TargetHolder<'a, T, D>, form: FmtForm)
    -> String {
    let mut f = TextSink::new();
    h.render_as(form, &mut f).unwrap();
    f.text_string()
}

fn fn_form_text<F: Fn() -> Result<Vec<char>, RenderError>>(w: &FmtFn<F>, form: FmtForm) -> String {
    let mut f = TextSink::new();
    w.render_as(form, &mut f).unwrap();
    f.text_string()
}

#[test]
fn test_formatting_trait_consistency() {
    let value = "test";

    let wrapper = FmtFn(
        || -> Result<Vec<char>, RenderError> { Ok(format!("[{}]", value).chars().collect()) },
    );

    assert_eq!(fn_form_text(&wrapper, FmtForm::Display), "[test]");
    assert_eq!(fn_form_text(&wrapper, FmtForm::Debug), "[test]");
    assert_eq!(fn_form_text(&wrapper, FmtForm::Binary), "[test]");
    assert_eq!(fn_form_text(&wrapper, FmtForm::LowerHex), "[test]");
    assert_eq!(fn_form_text(&wrapper, FmtForm::UpperHex), "[test]");
    assert_eq!(fn_form_text(&wrapper, FmtForm::Octal), "[test]");
    assert_eq!(fn_form_text(&wrapper, FmtForm::Pointer), "[test]");
}

#[test]
fn lib_test_combined_usage() {
    let data = vec![1i32, 2, 3];

    let describe = |v: &Vec<i32>| -> Result<Vec<char>, RenderError> {
        Ok(format!("数组: {}", (*v).fmt_as::<DebugProxy>().to_text()?).chars().collect())
    };
    let holder = data.fmt_with(&describe);
    assert_eq!(holder.to_text().unwrap(), "数组: [1, 2, 3]");

    let result = format!("大写: {}", "test".fmt_as::<UppercaseStringProxy>().to_text().unwrap());
    assert_eq!(result, "大写: TEST");
}

#[test]
fn lib_test_performance_patterns() {
    let data = "performance test";
    let proxy = data.fmt_as::<UppercaseStringProxy>();

    let mut buffer = TextSink::new();
    proxy.render(&mut buffer).unwrap();
    assert_eq!(buffer.text_string(), "PERFORMANCE TEST");

    let n = 100i32;
    let proxy = n.fmt_as::<NumberDisplayProxy>();

    let s1 = proxy.to_text().unwrap();
    let s2 = form_text(&proxy, FmtForm::Binary);
    let s3 = form_text(&proxy, FmtForm::LowerHex);

    assert_eq!(s1, "正100");
    assert_eq!(s2, "正100");
    assert_eq!(s3, "正100");
}

#[test]
fn lib_test_no_std_compatibility() {
    let mut buffer = TextSink::bounded(100);

    let s = "hello";
    s.fmt_as::<UppercaseStringProxy>().render(&mut buffer).unwrap();

    assert_eq!(buffer.text_string(), "HELLO");
}
