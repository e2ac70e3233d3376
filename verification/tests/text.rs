use mcp_supervisor::text::{decimal_text, parse_port, same_text};

#[test]
fn parse_port_agrees_with_the_standard_parser() {
    let samples = [
        "", "0", "1", "80", "41700", "65535", "65536", "99999", "000080", "+80", "+", "-", "-1",
        "+0", "++1", "1+", " 80", "80 ", "8 0", "0x50", "４２", "4１", "1e3", "80\n", "\t80",
        "00000000000000000000000065535", "00000000000000000000000065536", "655350",
        "18446744073709551616", "+65535", "+65536", "a", "٣",
    ];
    for s in samples {
        assert_eq!(parse_port(s), s.parse::<u16>().ok(), "input {s:?}");
    }
}

#[test]
fn parse_port_reads_every_port() {
    for p in [0u16, 1, 9, 10, 99, 100, 1024, 8080, 41700, 65534, 65535] {
        assert_eq!(parse_port(&p.to_string()), Some(p));
    }
}

#[test]
fn decimal_text_writes_as_the_standard_formatter() {
    for n in [0u64, 1, 9, 10, 11, 99, 100, 101, 41700, 65535, 4_294_967_295, u64::MAX] {
        assert_eq!(decimal_text(n), n.to_string());
    }
}

#[test]
fn same_text_compares_contents() {
    assert!(same_text("npx", "npx"));
    assert!(!same_text("npx", "NPX"));
    assert!(!same_text("npx", "npx "));
    assert!(same_text("", ""));
}

#[test]
fn parse_port_agrees_with_the_standard_parser_on_many_strings() {
    let alphabet: Vec<char> = "0123456789+- .xe٣９\u{0}".chars().collect();
    let mut state: u64 = 0x2545_f491_4f6c_dd1d;
    for _ in 0..20_000 {
        let mut text = String::new();
        state = state.wrapping_mul(6364136223846793005).wrapping_add(1442695040888963407);
        let len = (state >> 60) as usize % 8;
        for _ in 0..len {
            state = state.wrapping_mul(6364136223846793005).wrapping_add(1442695040888963407);
            let digit_biased = (state >> 33) % 4 != 0;
            let pick = if digit_biased {
                (state >> 40) as usize % 10
            } else {
                (state >> 40) as usize % alphabet.len()
            };
            text.push(alphabet[pick]);
        }
        assert_eq!(parse_port(&text), text.parse::<u16>().ok(), "input {text:?}");
    }
    for n in 0u32..70_000 {
        let text = n.to_string();
        assert_eq!(parse_port(&text), text.parse::<u16>().ok());
        assert_eq!(decimal_text(n as u64), text);
    }
}
