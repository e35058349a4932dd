use pdf_writer::{Content, Name, Real, Str};

/// The whole number `n` as a real operand.
fn whole(n: i64) -> Real {
    Real::new(n, 0)
}

#[test]
fn test_content_encoding() {
    let mut content = Content::new();
    content
        .save_state()
        .rect(whole(1), whole(2), whole(3), whole(4))
        .fill_nonzero()
        .set_dash_pattern(&[whole(7), whole(2)], whole(4))
        .x_object(Name(b"MyImage"))
        .set_fill_pattern(&[whole(2), Real::new(35, 1)], Name(b"MyPattern"))
        .restore_state();

    assert_eq!(
        content.finish(),
        b"q\n1 2 3 4 re\nf\n[7 2] 4 d\n/MyImage Do\n2 3.5 /MyPattern scn\nQ"
    );
}

#[test]
fn test_content_text() {
    let mut content = Content::new();

    content.set_font(Name(b"F1"), whole(12));
    content.begin_text();
    {
        let mut positioned = content.show_positioned();
        positioned.items().finish();
        positioned.finish();
    }
    {
        let mut positioned = content.show_positioned();
        let mut items = positioned.items();
        items.show(Str(b"AB")).adjust(whole(2)).show(Str(b"CD"));
        items.finish();
        positioned.finish();
    }
    content.end_text();

    assert_eq!(
        content.finish(),
        b"/F1 12 Tf\nBT\n[] TJ\n[(AB) 2 (CD)] TJ\nET"
    );
}
