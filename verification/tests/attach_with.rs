use wfu::{FmtForm, FmtWith, RenderError, TextSink};

fn form_text<'a, T, D: wfu::FmtHandler<T>>(h: &wfu::TargetHolder<'a, T, D>, form: FmtForm)
    -> String {
    let mut f = TextSink::new();
    h.render_as(form, &mut f).unwrap();
    f.text_string()
}

#[test]
fn fmt_with_test_fmt_with() {
    let value = 42i32;

    let show = |v: &i32| -> Result<Vec<char>, RenderError> {
        Ok(format!("Value: {}", v).chars().collect())
    };
    let holder = value.fmt_with(&show);
    assert_eq!(holder.to_text().unwrap(), "Value: 42");
    assert_eq!(form_text(&holder, FmtForm::Debug), "Value: 42");

    let hex = |v: &i32| -> Result<Vec<char>, RenderError> {
        Ok(format!("0x{:x}", v).chars().collect())
    };
    let holder = value.fmt_with(&hex);
    assert_eq!(form_text(&holder, FmtForm::LowerHex), "0x2a");
    assert_eq!(holder.to_text().unwrap(), "0x2a");
    assert_ne!(form_text(&holder, FmtForm::UpperHex), "0x2A");
}

#[test]
fn fmt_with_test_closure_lifetimes() {
    let prefix = "Prefix: ";
    let value = 42i32;

    let binding = move |v: &i32| -> Result<Vec<char>, RenderError> {
        Ok(format!("{}{}", prefix, v).chars().collect())
    };
    let holder = value.fmt_with(&binding);

    assert_eq!(holder.to_text().unwrap(), "Prefix: 42");
}
