use pdf_writer::{Content, Name, Obj, Primitive, Real, Str};

fn written<T: Primitive>(value: T) -> Vec<u8> {
    let mut buf = Vec::new();
    Obj::direct(&mut buf, 0).primitive(value);
    buf
}

fn hex_value(c: u8) -> u8 {
    if c <= b'9' {
        c - b'0'
    } else {
        c - b'A' + 10
    }
}

fn unescape_name(t: &[u8]) -> Vec<u8> {
    let mut out = Vec::new();
    let mut i = 0;
    while i < t.len() {
        if t[i] == b'#' && i + 2 < t.len() {
            out.push(hex_value(t[i + 1]) * 16 + hex_value(t[i + 2]));
            i += 3;
        } else {
            out.push(t[i]);
            i += 1;
        }
    }
    out
}

fn unescape_literal(t: &[u8]) -> Vec<u8> {
    let mut out = Vec::new();
    let mut i = 0;
    while i < t.len() {
        if t[i] == b'\\' {
            let c = t[i + 1];
            match c {
                b'n' => out.push(b'\n'),
                b'r' => out.push(b'\r'),
                b't' => out.push(b'\t'),
                b'b' => out.push(8),
                b'f' => out.push(12),
                b'0'..=b'7' => {
                    out.push((c - b'0') * 64 + (t[i + 2] - b'0') * 8 + (t[i + 3] - b'0'));
                    i += 2;
                }
                _ => out.push(c),
            }
            i += 2;
        } else {
            out.push(t[i]);
            i += 1;
        }
    }
    out
}

#[test]
fn law_integer_roundtrip_examples() {
    for n in [0i32, 9, 10, -1, 65535, i32::MAX, i32::MIN] {
        let text = String::from_utf8(written(n)).unwrap();
        assert_eq!(text.parse::<i32>().unwrap(), n);
    }
}

#[test]
fn law_real_roundtrip_examples() {
    for (units, scale) in [(35i64, 1u8), (-5, 3), (1200, 2), (0, 5), (123456, 0), (-987654321, 4)] {
        let text = String::from_utf8(written(Real::new(units, scale))).unwrap();
        let (negative, body) = match text.strip_prefix('-') {
            Some(rest) => (true, rest.to_string()),
            None => (false, text.clone()),
        };
        let (whole, fraction) = match body.split_once('.') {
            Some((w, f)) => (w.to_string(), f.to_string()),
            None => (body.clone(), String::new()),
        };
        assert!(fraction.len() <= scale as usize);
        let digits = format!("{}{}{}", whole, fraction, "0".repeat(scale as usize - fraction.len()));
        let magnitude: i64 = digits.parse().unwrap();
        assert_eq!(if negative { -magnitude } else { magnitude }, units);
    }
}

#[test]
fn law_name_roundtrip_examples() {
    for name in [&b"Type"[..], b"A B#C", b"(x)/[y]<z>{w}%", &[0, 9, 0x80, 0xFF]] {
        let bytes = written(Name(name));
        assert_eq!(bytes[0], b'/');
        assert_eq!(unescape_name(&bytes[1..]), name);
    }
}

#[test]
fn law_name_is_one_token_examples() {
    let bytes = written(Name(b" ()<>[]{}/%#\x00\x7F\xFF"));
    for &b in &bytes[1..] {
        assert!((33..=126).contains(&b));
        assert!(!b"()<>[]{}/%".contains(&b));
    }
}

#[test]
fn law_string_roundtrip_examples() {
    for text in [&b"plain"[..], b"a(b)\\c", b"\n\r\t\x08\x0C\x01\x7F"] {
        let bytes = written(Str(text));
        assert_eq!(bytes[0], b'(');
        assert_eq!(bytes[bytes.len() - 1], b')');
        assert_eq!(unescape_literal(&bytes[1..bytes.len() - 1]), text);
    }
    let bytes = written(Str(&[0xDE, 0xAD, 0x01]));
    assert_eq!(bytes, b"<DEAD01>");
}

#[test]
fn law_finished_lines_example() {
    let mut content = Content::new();
    content.save_state().set_flatness(0).restore_state();
    assert_eq!(content.finish(), ["q", "0 i", "Q"].join("\n").as_bytes());
}

#[test]
fn law_operation_line_example() {
    let mut content = Content::new();
    {
        let mut op = content.op("Do");
        op.operands(&[1i32, 2, 3]);
        op.finish();
    }
    {
        let op = content.op("EMC");
        op.finish();
    }
    assert_eq!(content.finish(), b"1 2 3 Do\nEMC");
}

#[test]
fn law_one_by_one_example() {
    let mut one = Content::new();
    {
        let mut op = one.op("m");
        op.operand(Real::new(15, 1)).operand(2i32).operand(Name(b"N"));
        op.finish();
    }
    let mut all = Content::new();
    {
        let mut op = all.op("m");
        op.operands(&[Real::new(15, 1)]);
        op.operands(&[2i32]);
        op.operands(&[Name(b"N")]);
        op.finish();
    }
    let one = one.finish();
    assert_eq!(one, all.finish());
    assert_eq!(one, b"1.5 2 /N m");
}

#[test]
fn law_positioned_line_example() {
    let mut content = Content::new();
    {
        let mut positioned = content.show_positioned();
        let mut items = positioned.items();
        items.adjust(Real::new(-120, 0)).show(Str(b"W"));
        items.finish();
        positioned.finish();
    }
    assert_eq!(content.finish(), b"[-120 (W)] TJ");
}

#[test]
fn law_content_operation_example() {
    let mut content = Content::new();
    content.begin_text().end_text();
    let mut content2 = Content::new();
    content2.begin_text();
    content2.end_text().save_state();
    assert_eq!(content2.finish(), b"BT\nET\nq");
    assert_eq!(content.finish(), b"BT\nET");
}

#[test]
fn law_operations_are_lines_example() {
    let mut content = Content::new();
    content
        .move_to(Real::new(0, 0), Real::new(1, 0))
        .line_to(Real::new(25, 1), Real::new(-3, 0))
        .close_path()
        .fill_even_odd();
    let lines = ["0 1 m", "2.5 -3 l", "h", "f*"];
    assert_eq!(content.finish(), lines.join("\n").as_bytes());
}
