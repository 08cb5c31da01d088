use filedialog::fields::split_fields;
use filedialog::text::{push_decimal, to_hex_lower};

fn split(s: &str) -> Vec<String> {
    let cs: Vec<char> = s.chars().collect();
    split_fields(&cs).into_iter().map(|v| v.into_iter().collect()).collect()
}

#[test]
fn split_matches_str_split() {
    for s in ["DIR | a | b", "a", "", " | ", "a | | b", "x |  | y", "DIR | a | b | c", "a | b | "] {
        let expected: Vec<String> = s.split(" | ").map(|p| p.to_string()).collect();
        assert_eq!(split(s), expected, "splitting {:?}", s);
    }
}

#[test]
fn decimal_rendering() {
    for n in [0u64, 7, 10, 99, 100, 12345, u64::MAX] {
        let mut s = String::new();
        push_decimal(&mut s, n);
        assert_eq!(s, n.to_string());
    }
}

#[test]
fn hex_rendering() {
    assert_eq!(to_hex_lower(&[0x00, 0x0f, 0xa0, 0xff]), "000fa0ff");
    assert_eq!(to_hex_lower(&[]), "");
}
