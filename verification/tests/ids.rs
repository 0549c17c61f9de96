use seneca_solver::hex::{generate_hex_string, generate_session_id};

fn is_lower_hex(c: char) -> bool {
    c.is_ascii_digit() || ('a'..='f').contains(&c)
}

#[test]
fn hex_string_has_two_digits_per_byte() {
    for half_length in [0i32, 1, 2, 4, 6, 10] {
        let s = generate_hex_string(half_length);
        assert_eq!(s.len(), 2 * half_length as usize);
        assert!(s.chars().all(is_lower_hex));
    }
}

#[test]
fn hex_string_empty_for_negative_count() {
    assert_eq!(generate_hex_string(-3), "");
}

#[test]
fn hex_strings_vary() {
    let a = generate_hex_string(16);
    let b = generate_hex_string(16);
    assert_ne!(a, b, "two 32-digit random strings should not collide");
}

#[test]
fn session_id_is_five_hex_groups() {
    for _ in 0..20 {
        let id = generate_session_id();
        let chars: Vec<char> = id.chars().collect();
        assert_eq!(chars.len(), 36);
        for (i, c) in chars.iter().enumerate() {
            if i == 8 || i == 13 || i == 18 || i == 23 {
                assert_eq!(*c, '-');
            } else {
                assert!(is_lower_hex(*c), "position {} holds {:?}", i, c);
            }
        }
    }
}
