use cidre::cf::string::{CompareFlags, Encoding, MutableString, Str};

#[test]
fn it_works() {
    let s = Str::from_str("hello");
    assert_eq!(s.get_length(), 5);
    let std_str: String = s.chars().iter().collect();
    assert_eq!(std_str.chars().count(), 5);
}

#[test]
fn no_copy_constructors_agree() {
    let s1 = Str::from_str_no_copy("nice");
    let s2 = Str::from_str_no_copy("nice");
    assert_eq!(4, s1.get_length());
    assert!(s1.equal(&s2));
    assert_eq!(s1, s2);
    assert_eq!(s1.get_character_at_index(0), 'n');
    let other = Str::from_str("mice");
    assert!(!s1.equal(&other));
    assert_ne!(s1, other);
}

#[test]
fn prefixes_and_suffixes() {
    let s = Str::from_str("nice string");
    let nice = Str::from_str("nice");
    let string = Str::from_str("string");
    assert!(s.has_prefix(&nice));
    assert!(!s.has_prefix(&string));
    assert!(s.has_suffix(&string));
    assert!(!s.has_suffix(&nice));
    let longer = Str::from_str("a very nice string indeed");
    assert!(!s.has_prefix(&longer));
}

#[test]
fn copies_are_equal() {
    let s = Str::from_str("copy me");
    let c = s.copy().unwrap();
    assert_eq!(c.get_length(), 7);
    assert_eq!(c.get_character_at_index(5), 'm');
    let mc = s.mutable_copy(0).unwrap();
    assert_eq!(mc.get_length(), 7);
}

#[test]
fn bytes_constructors() {
    let bytes = b"abc";
    let s = Str::create_with_bytes(None, bytes, 3, Encoding::utf8(), false).unwrap();
    assert_eq!(s.get_length(), 3);
    assert_eq!(s.get_character_at_index(1), 'b');

    // A count beyond the buffer is refused.
    assert!(Str::create_with_bytes(None, bytes, 4, Encoding::utf8(), false).is_none());
    // An unsupported encoding is refused.
    let odd = Encoding { raw: 0x0B01 };
    assert!(Str::create_with_bytes(None, bytes, 3, odd, false).is_none());
    // An ill-formed sequence is refused: 0xFF is no leading byte.
    let high = [0x61u8, 0xFF];
    assert!(Str::create_with_bytes(None, &high, 2, Encoding::utf8(), false).is_none());
    // A shorter count that stays well formed is accepted.
    let s = Str::create_with_bytes(None, &high, 1, Encoding::ascii(), false).unwrap();
    assert_eq!(s.get_length(), 1);
}

#[test]
fn multi_byte_utf8_decodes() {
    // A two-byte scalar decodes under UTF-8 and is refused under ASCII.
    let accented = [0x63u8, 0x61, 0x66, 0xC3, 0xA9];
    let s = Str::create_with_bytes(None, &accented, 5, Encoding::utf8(), false).unwrap();
    assert_eq!(s.get_length(), 4);
    assert_eq!(s.get_character_at_index(3), '\u{e9}');
    assert!(Str::create_with_bytes(None, &accented, 5, Encoding::ascii(), false).is_none());

    // Three- and four-byte scalars decode too.
    let snowman_and_clef = [0xE2u8, 0x98, 0x83, 0xF0, 0x9D, 0x84, 0x9E];
    let s = Str::create_with_bytes(None, &snowman_and_clef, 7, Encoding::utf8(), false).unwrap();
    assert_eq!(s.get_length(), 2);
    assert_eq!(s.get_character_at_index(0), '\u{2603}');
    assert_eq!(s.get_character_at_index(1), '\u{1d11e}');

    // An overlong encoding is refused.
    let overlong = [0xC0u8, 0x80];
    assert!(Str::create_with_bytes(None, &overlong, 2, Encoding::utf8(), false).is_none());
    // A surrogate is refused.
    let surrogate = [0xEDu8, 0xA0, 0x80];
    assert!(Str::create_with_bytes(None, &surrogate, 3, Encoding::utf8(), false).is_none());
    // A truncated sequence is refused.
    let truncated = [0xC3u8];
    assert!(Str::create_with_bytes(None, &truncated, 1, Encoding::utf8(), false).is_none());

    // A non-ASCII C string decodes under UTF-8.
    let cstr = [0xC3u8, 0xA9, 0x00];
    let s = Str::from_cstr(&cstr);
    assert_eq!(s.get_length(), 1);
}

#[test]
fn cstring_constructors() {
    let bytes = b"hi\0tail";
    let s = Str::create_with_cstring(None, bytes, Encoding::utf8()).unwrap();
    assert_eq!(s.get_length(), 2);
    let s = Str::from_cstr(b"hey\0");
    assert_eq!(s.get_length(), 3);
    let s = Str::from_cstr_no_copy(b"hey\0");
    assert_eq!(s.get_length(), 3);
    // Without a terminator there is no C string.
    assert!(Str::create_with_cstring(None, b"zzz", Encoding::utf8()).is_none());
}

#[test]
fn mutable_bounds() {
    let s = Str::from_str("hello");
    // A nonzero bound below the length refuses the copy.
    assert!(s.mutable_copy(3).is_none());
    assert!(s.mutable_copy(5).is_some());
    assert!(s.mutable_copy(0).is_some());

    let mut m = MutableString::create(None, 0).unwrap();
    assert_eq!(m.get_length(), 0);
    m.append(&s);
    m.append(&s);
    assert_eq!(m.get_length(), 10);
    assert_eq!(m.as_str().get_character_at_index(5), 'h');
}

#[test]
fn trim_whitespace_strips_both_ends() {
    let mut m = Str::from_str(" \t nice \n").mutable_copy(0).unwrap();
    m.trim_whitespace();
    assert_eq!(m.get_length(), 4);
    let trimmed = m.as_str();
    assert!(trimmed.has_prefix(&Str::from_str("nice")));

    let mut all_ws = Str::from_str(" \r\n\t ").mutable_copy(0).unwrap();
    all_ws.trim_whitespace();
    assert_eq!(all_ws.get_length(), 0);

    let mut untouched = Str::from_str("solid").mutable_copy(0).unwrap();
    untouched.trim_whitespace();
    assert_eq!(untouched.get_length(), 5);
}

#[test]
fn fixed_codes() {
    assert_eq!(Str::type_id(), 7);
    assert_eq!(Encoding::ascii().raw, 0x0600);
    assert_eq!(Encoding::utf8().raw, 0x08000100);
    assert_eq!(CompareFlags::none().raw, 0);
    assert_eq!(CompareFlags::case_insensitive().raw, 1);
    assert_eq!(CompareFlags::backwards().raw, 4);
    assert_eq!(CompareFlags::anchored().raw, 8);
    assert_eq!(CompareFlags::forced_ordering().raw, 512);
}

#[test]
fn trim_removes_repeated_ends() {
    let mut m = Str::from_str("ababXYab").mutable_copy(0).unwrap();
    let ab = Str::from_str("ab");
    m.trim(&ab);
    assert_eq!(m.get_length(), 2);
    let rest = m.as_str();
    assert_eq!(rest.get_character_at_index(0), 'X');
    assert_eq!(rest.get_character_at_index(1), 'Y');

    // A pattern that only matches whole occurrences leaves partial ones.
    let mut m = Str::from_str("aba").mutable_copy(0).unwrap();
    m.trim(&ab);
    assert_eq!(m.get_length(), 1);

    // The empty pattern trims nothing.
    let mut m = Str::from_str("solid").mutable_copy(0).unwrap();
    m.trim(&Str::from_str(""));
    assert_eq!(m.get_length(), 5);

    // A string made only of the pattern trims away entirely.
    let mut m = Str::from_str("abab").mutable_copy(0).unwrap();
    m.trim(&ab);
    assert_eq!(m.get_length(), 0);
}

#[test]
fn byte_encoding_round_trip() {
    let s = Str::from_str("round trip");
    let bytes = s.get_bytes(Encoding::utf8()).unwrap();
    assert_eq!(bytes.as_slice(), b"round trip");
    let back = Str::create_with_bytes(None, &bytes, bytes.len(), Encoding::utf8(), false).unwrap();
    assert_eq!(back.get_length(), 10);
    assert!(back.has_prefix(&Str::from_str("round")));

    // Under UTF-8 every string encodes, multi-byte scalars included.
    let accented = Str::from_str("café");
    let bytes = accented.get_bytes(Encoding::utf8()).unwrap();
    assert_eq!(bytes.as_slice(), &[0x63, 0x61, 0x66, 0xC3, 0xA9]);
    let back =
        Str::create_with_bytes(None, &bytes, bytes.len(), Encoding::utf8(), false).unwrap();
    assert_eq!(back.get_length(), 4);
    // Under ASCII a character above 127 is refused.
    assert!(accented.get_bytes(Encoding::ascii()).is_none());
    // An unsupported encoding is refused.
    let odd = Encoding { raw: 0x0100 };
    assert!(s.get_bytes(odd).is_none());
}
