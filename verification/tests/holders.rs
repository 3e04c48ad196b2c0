use wfu::{FmtAs, FmtBy, FmtByHolder, FmtForm, LowerHexProxy, NumberDisplayProxy, RenderError,
    Repeat, TargetHolder, TextSink, UpperHexProxy, UppercaseStringProxy, WithInner};

fn hex_prefixed<'a>(v: &TargetHolder<'a, i32, UpperHexProxy>) -> Result<Vec<char>, RenderError> {
    Ok(format!("0x{}", v.to_text()?).chars().collect())
}

#[test]
fn test_chain_composition() {
    let value = 42i32;

    let chained = value.fmt_as::<UpperHexProxy>().then_with(&hex_prefixed).then_by(Repeat(5));

    assert_eq!(chained.to_text().unwrap(), "0x2A0x2A0x2A0x2A0x2A");
}

#[test]
fn test_render_form_independent() {
    let n = 255i32;
    let holder = n.fmt_as::<NumberDisplayProxy>();
    let forms = [
        FmtForm::Display,
        FmtForm::Debug,
        FmtForm::Binary,
        FmtForm::Octal,
        FmtForm::LowerHex,
        FmtForm::UpperHex,
        FmtForm::LowerExp,
        FmtForm::UpperExp,
        FmtForm::Pointer,
    ];
    for form in forms {
        let mut f = TextSink::new();
        holder.render_as(form, &mut f).unwrap();
        assert_eq!(f.text_string(), "正255");
    }
}

#[test]
fn test_chain_order_observable() {
    let n = 5i32;

    let signed_then_doubled = n.fmt_as::<NumberDisplayProxy>().then_by(Repeat(2));
    assert_eq!(signed_then_doubled.to_text().unwrap(), "正5正5");

    let hexed = n.fmt_as::<UpperHexProxy>();
    let hex_then_signed = hexed.fmt_as::<NumberDisplayProxy>();
    assert_eq!(hex_then_signed.to_text().unwrap(), "正5");
}

#[test]
fn test_signed_numeric_values() {
    assert_eq!((-10i32).fmt_as::<NumberDisplayProxy>().to_text().unwrap(), "负10");
    assert_eq!(0i32.fmt_as::<NumberDisplayProxy>().to_text().unwrap(), "零");
    assert_eq!(255i32.fmt_as::<NumberDisplayProxy>().to_text().unwrap(), "正255");
    assert_eq!(i32::MIN.fmt_as::<NumberDisplayProxy>().to_text().unwrap(), "负2147483647");
}

#[test]
fn test_rebuild_through_chain() {
    let n = -42i32;
    let hexed = n.fmt_as::<LowerHexProxy>();
    let chained = hexed.fmt_as::<NumberDisplayProxy>();
    assert_eq!(chained.to_text().unwrap(), "负2a");

    let p = 42i32;
    let hexed_pos = p.fmt_as::<LowerHexProxy>();
    let chained = hexed_pos.fmt_as::<NumberDisplayProxy>();
    assert_eq!(chained.to_text().unwrap(), "正2a");
}

#[test]
fn test_with_inner_substitutes_value() {
    let a = 7i32;
    let b = 8i32;
    let holder = a.fmt_as::<NumberDisplayProxy>();
    assert_eq!(holder.to_text().unwrap(), "正7");
    let other = holder.with_inner(&b);
    assert_eq!(other.to_text().unwrap(), "正8");
    assert_eq!(*holder.inner_ref(), 7);
    assert_eq!(*other.inner_ref(), 8);
}

#[test]
fn test_transparent_access() {
    let s = "abc";
    let holder = s.fmt_as::<UppercaseStringProxy>();
    assert_eq!(*holder.deref(), "abc");
    assert_eq!(*holder.as_ref(), "abc");

    let mut owned = 3i32.fmt_deref_by(NumberDisplayProxy);
    assert_eq!(*owned.as_ref(), 3);
    *owned.deref_mut() = -4;
    assert_eq!(owned.to_text().unwrap(), "负4");

    let n = 9i32;
    let chained = n.fmt_by(UpperHexProxy).then_by(Repeat(2));
    assert_eq!(*chained.deref(), 9);
    assert_eq!(*chained.inner_ref(), 9);
}

#[test]
fn test_sink_capacity_failure() {
    let n = 255i32;
    let holder = n.fmt_as::<NumberDisplayProxy>();

    let mut small = TextSink::bounded(2);
    assert_eq!(holder.render(&mut small), Err(RenderError));

    let mut exact = TextSink::bounded(4);
    assert_eq!(exact.len(), 0);
    assert_eq!(holder.render(&mut exact), Ok(()));
    assert_eq!(exact.text_string(), "正255");
    assert_eq!(holder.render(&mut exact), Err(RenderError));
    assert_eq!(exact.text_string(), "正255");
}

#[test]
fn test_sink_write_boundaries() {
    let mut f = TextSink::bounded(3);
    assert_eq!(f.write_char('a'), Ok(()));
    assert_eq!(f.write_str("bc"), Ok(()));
    assert_eq!(f.write_char('d'), Err(RenderError));
    assert_eq!(f.write_str(""), Ok(()));
    assert_eq!(f.len(), 3);
    assert_eq!(f.text_string(), "abc");
    assert_eq!(f.chars().as_slice(), &['a', 'b', 'c']);
}

#[test]
fn test_uppercase_unicode_mapping() {
    let s = "café";
    assert_eq!(s.fmt_as::<UppercaseStringProxy>().to_text().unwrap(), "CAFÉ");

    let s = "straße";
    assert_eq!(s.fmt_as::<UppercaseStringProxy>().to_text().unwrap(), "STRASSE");
}

#[test]
fn test_debug_escapes() {
    let s = "a\"b\\c\nd";
    let mut f = TextSink::new();
    s.fmt_as::<wfu::DebugProxy>().render_as(FmtForm::Debug, &mut f).unwrap();
    assert_eq!(f.text_string(), "\"a\\\"b\\\\c\\nd\"");
}

#[test]
fn test_exp_notation() {
    assert_eq!(100i32.fmt_as::<wfu::LowerExpProxy>().to_text().unwrap(), "1e2");
    assert_eq!(0i32.fmt_as::<wfu::LowerExpProxy>().to_text().unwrap(), "0e0");
    assert_eq!((-100i32).fmt_as::<wfu::UpperExpProxy>().to_text().unwrap(), "-1E2");
    assert_eq!(i32::MAX.fmt_as::<wfu::UpperExpProxy>().to_text().unwrap(), "2.147483647E9");
    assert_eq!(1050i32.fmt_as::<wfu::LowerExpProxy>().to_text().unwrap(), "1.05e3");
}
