use base64::engine::general_purpose::URL_SAFE_NO_PAD;
use base64::Engine;
use equality_proof::claims::{encode_integer, encode_value, magnitude};
use equality_proof::disclosure::{
    attach, encode_claim, encode_claim_with, join, split, split_once, Disclosure, DisclosureSet,
};
use equality_proof::error::Error;
use equality_proof::scalar::Scalar;

fn carried(blinding: &Scalar, name: &str, value: &str) -> String {
    let document = format!(
        "[\"{}\",\"{}\",{}]",
        URL_SAFE_NO_PAD.encode(blinding.to_bytes()),
        name,
        value
    );
    URL_SAFE_NO_PAD.encode(document)
}

#[test]
fn magnitude_of_integers() {
    assert_eq!(magnitude(0), 0);
    assert_eq!(magnitude(5), 5);
    assert_eq!(magnitude(-5), 5);
    assert_eq!(magnitude(i64::MAX), 0x7fff_ffff_ffff_ffff);
    assert_eq!(magnitude(i64::MIN), 0x8000_0000_0000_0000);
}

#[test]
fn integer_stands_for_itself() {
    assert_eq!(encode_integer(1958), Scalar::from_u64(1958));
    assert_eq!(encode_integer(0), Scalar::from_u64(0));
    assert_eq!(encode_integer(i64::MAX), Scalar::from_u64(i64::MAX as u64));
}

#[test]
fn minus_five_is_the_inverse_of_five() {
    let s = encode_integer(-5);
    assert_eq!(s, Scalar::from_u64(5).invert());
    assert_eq!(s.times(&Scalar::from_u64(5)), Scalar::from_u64(1));
    assert_ne!(s, Scalar::from_u64(5));
    assert_ne!(s, Scalar::from_u64(0).minus(&Scalar::from_u64(5)));
}

#[test]
fn minus_one_is_one() {
    assert_eq!(encode_integer(-1), encode_integer(1));
}

#[test]
fn least_integer_is_the_inverse_of_two_to_the_63() {
    let s = encode_integer(i64::MIN);
    assert_eq!(s.times(&Scalar::from_u64(1 << 63)), Scalar::from_u64(1));
}

#[test]
fn value_of_a_number_text() {
    assert_eq!(encode_value("1958"), Ok(Scalar::from_u64(1958)));
    assert_eq!(encode_value(" 1958 "), Ok(Scalar::from_u64(1958)));
    assert_eq!(encode_value("-5"), Ok(Scalar::from_u64(5).invert()));
    assert_eq!(encode_value("0"), Ok(Scalar::from_u64(0)));
}

#[test]
fn value_of_a_string_is_the_hash_of_its_text() {
    assert_eq!(encode_value("\"abc\""), Ok(Scalar::hash_from_bytes(b"\"abc\"")));
    assert_ne!(encode_value("\"abc\""), encode_value("\"abce\""));
}

#[test]
fn value_of_a_compound_is_the_hash_of_its_compact_text() {
    let expected = Scalar::hash_from_bytes(b"{\"a\":[1,2],\"b\":null}");
    assert_eq!(encode_value("{ \"a\" : [1, 2],\n \"b\" : null }"), Ok(expected));
    assert_eq!(encode_value("true"), Ok(Scalar::hash_from_bytes(b"true")));
    assert_eq!(encode_value("null"), Ok(Scalar::hash_from_bytes(b"null")));
}

#[test]
fn value_that_cannot_be_encoded() {
    assert_eq!(encode_value("1.5"), Err(Error::MalformedDisclosures));
    assert_eq!(encode_value("18446744073709551615"), Err(Error::MalformedDisclosures));
    assert_eq!(encode_value(""), Err(Error::MalformedDisclosures));
    assert_eq!(encode_value("{"), Err(Error::MalformedDisclosures));
    assert_eq!(encode_value("abc"), Err(Error::MalformedDisclosures));
}

#[test]
fn claim_with_a_blinding_factor() {
    let b = Scalar::from_u64(77);
    let (scalar, disclosure) = encode_claim_with("dob", "1958", b).unwrap();
    assert_eq!(scalar, Scalar::from_u64(1958));
    assert_eq!(
        disclosure,
        Disclosure { blinding: b, name: "dob".to_string(), value: "1958".to_string() }
    );
    assert_eq!(encode_claim_with("dob", "1.5", b), Err(Error::MalformedDisclosures));
}

#[test]
fn claim_with_a_drawn_blinding_factor() {
    let (scalar, first) = encode_claim("test", "\"abc\"").unwrap();
    let (_, second) = encode_claim("test", "\"abc\"").unwrap();
    assert_eq!(scalar, Scalar::hash_from_bytes(b"\"abc\""));
    assert_eq!(first.name, "test");
    assert_eq!(first.value, "\"abc\"");
    assert_ne!(first.blinding, second.blinding);
    assert_eq!(encode_claim("test", "?"), Err(Error::MalformedDisclosures));
}

#[test]
fn disclosure_scalar_follows_the_value() {
    let d = Disclosure {
        blinding: Scalar::from_u64(1),
        name: "dob".to_string(),
        value: "-5".to_string(),
    };
    assert_eq!(d.scalar(), Ok(Scalar::from_u64(5).invert()));
}

#[test]
fn disclosure_is_read_from_its_text() {
    let b = Scalar::from_u64(123456789);
    let text = carried(&b, "dob", "1958");
    assert_eq!(
        Disclosure::decode(text.as_bytes()),
        Ok(Disclosure { blinding: b, name: "dob".to_string(), value: "1958".to_string() })
    );
}

#[test]
fn disclosed_value_is_kept_as_compact_text() {
    let b = Scalar::from_u64(5);
    let text = carried(&b, "address", "{ \"city\" : \"Bern\" }");
    let d = Disclosure::decode(text.as_bytes()).unwrap();
    assert_eq!(d.value, "{\"city\":\"Bern\"}");
    assert_eq!(d.name, "address");
}

#[test]
fn blinding_factor_is_reduced_on_reading() {
    let document = format!("[\"{}\",\"n\",1]", URL_SAFE_NO_PAD.encode([0xffu8; 32]));
    let d = Disclosure::decode(URL_SAFE_NO_PAD.encode(document).as_bytes()).unwrap();
    assert_eq!(d.blinding, Scalar::from_bytes_mod_order([0xff; 32]));
}

#[test]
fn unreadable_disclosures() {
    let b = URL_SAFE_NO_PAD.encode(Scalar::from_u64(1).to_bytes());
    let cases = vec![
        String::new(),
        "***".to_string(),
        URL_SAFE_NO_PAD.encode("not json"),
        URL_SAFE_NO_PAD.encode(format!("[\"{}\",\"n\"]", b)),
        URL_SAFE_NO_PAD.encode(format!("[\"{}\",\"n\",1,2]", b)),
        URL_SAFE_NO_PAD.encode(format!("[\"{}\",7,1]", b)),
        URL_SAFE_NO_PAD.encode("[7,\"n\",1]"),
        URL_SAFE_NO_PAD.encode("[\"***\",\"n\",1]"),
        URL_SAFE_NO_PAD.encode(format!("[\"{}\",\"n\",1]", URL_SAFE_NO_PAD.encode([1u8; 31]))),
        URL_SAFE_NO_PAD.encode(format!("[\"{}\",\"n\",1]", URL_SAFE_NO_PAD.encode([1u8; 33]))),
        URL_SAFE_NO_PAD.encode(format!("{{\"0\":\"{}\"}}", b)),
    ];
    for case in cases {
        assert_eq!(Disclosure::decode(case.as_bytes()), Err(Error::MalformedDisclosures));
    }
}

#[test]
fn disclosure_is_written_as_base64_of_a_json_array() {
    let b = Scalar::from_u64(4242);
    let d = Disclosure { blinding: b, name: "dob".to_string(), value: "1958".to_string() };
    assert_eq!(d.encode(), Ok(carried(&b, "dob", "1958")));
}

#[test]
fn writing_escapes_and_compacts() {
    let b = Scalar::from_u64(1);
    let d = Disclosure {
        blinding: b,
        name: "a\"b".to_string(),
        value: "[ 1 , 2 ]".to_string(),
    };
    let document = format!("[\"{}\",\"a\\\"b\",[1,2]]", URL_SAFE_NO_PAD.encode(b.to_bytes()));
    assert_eq!(d.encode(), Ok(URL_SAFE_NO_PAD.encode(document)));
}

#[test]
fn writing_refuses_what_is_no_json() {
    let d = Disclosure {
        blinding: Scalar::from_u64(1),
        name: "n".to_string(),
        value: "{".to_string(),
    };
    assert_eq!(d.encode(), Err(Error::MalformedDisclosures));
}

#[test]
fn disclosure_round_trip() {
    let d = Disclosure {
        blinding: Scalar::random(),
        name: "test".to_string(),
        value: "\"abc\"".to_string(),
    };
    assert_eq!(Disclosure::decode(d.encode().unwrap().as_bytes()), Ok(d));
}

#[test]
fn split_cuts_at_each_separator() {
    assert_eq!(split(b"a~bc~d"), vec![b"a".to_vec(), b"bc".to_vec(), b"d".to_vec()]);
    assert_eq!(split(b"abc"), vec![b"abc".to_vec()]);
    assert_eq!(split(b""), vec![Vec::<u8>::new()]);
    assert_eq!(split(b"~"), vec![Vec::<u8>::new(), Vec::new()]);
    assert_eq!(split(b"a~~b~"), vec![b"a".to_vec(), Vec::new(), b"b".to_vec(), Vec::new()]);
}

#[test]
fn join_puts_a_separator_between() {
    assert_eq!(join(&vec![b"a".to_vec(), b"bc".to_vec(), b"d".to_vec()]), b"a~bc~d".to_vec());
    assert_eq!(join(&vec![b"abc".to_vec()]), b"abc".to_vec());
    assert_eq!(join(&vec![]), Vec::<u8>::new());
    assert_eq!(join(&vec![Vec::new(), Vec::new()]), b"~".to_vec());
}

#[test]
fn join_undoes_split() {
    for text in [&b"a~b~c"[..], b"", b"~~", b"x", b"~x~"] {
        assert_eq!(join(&split(text)), text.to_vec());
    }
}

#[test]
fn split_once_cuts_at_the_first_separator() {
    assert_eq!(split_once(b"jwt~d1~d2"), Some((b"jwt".to_vec(), b"d1~d2".to_vec())));
    assert_eq!(split_once(b"jwt~"), Some((b"jwt".to_vec(), Vec::new())));
    assert_eq!(split_once(b"~x"), Some((Vec::new(), b"x".to_vec())));
    assert_eq!(split_once(b"jwt"), None);
    assert_eq!(split_once(b""), None);
}

#[test]
fn attach_puts_one_separator_between() {
    assert_eq!(attach(b"jwt", b"d1~d2"), b"jwt~d1~d2".to_vec());
    assert_eq!(attach(b"", b""), b"~".to_vec());
    assert_eq!(split_once(&attach(b"jwt", b"d1~d2")), Some((b"jwt".to_vec(), b"d1~d2".to_vec())));
}

#[test]
fn set_is_read_from_joined_text() {
    let (b1, b2) = (Scalar::from_u64(1), Scalar::from_u64(2));
    let text = format!("{}~{}", carried(&b1, "test", "\"abc\""), carried(&b2, "dob", "1958"));
    let set = DisclosureSet::decode(text.as_bytes()).unwrap();
    assert_eq!(set.len(), 2);
    assert_eq!(set.entry(0).unwrap().name, "test");
    assert_eq!(set.entry(1).unwrap().name, "dob");
    assert_eq!(set.entry(2), None);
    assert_eq!(
        set.get("dob"),
        Some(&Disclosure { blinding: b2, name: "dob".to_string(), value: "1958".to_string() })
    );
    assert_eq!(set.get("test").unwrap().value, "\"abc\"");
    assert_eq!(set.get("other"), None);
}

#[test]
fn set_does_not_depend_on_the_order_for_lookup() {
    let (b1, b2) = (Scalar::from_u64(1), Scalar::from_u64(2));
    let one = format!("{}~{}", carried(&b1, "test", "\"abc\""), carried(&b2, "dob", "1958"));
    let two = format!("{}~{}", carried(&b2, "dob", "1958"), carried(&b1, "test", "\"abc\""));
    let one = DisclosureSet::decode(one.as_bytes()).unwrap();
    let two = DisclosureSet::decode(two.as_bytes()).unwrap();
    for name in ["test", "dob", "none"] {
        assert_eq!(one.get(name), two.get(name));
    }
}

#[test]
fn set_with_two_disclosures_of_one_name_is_refused() {
    let (b1, b2) = (Scalar::from_u64(1), Scalar::from_u64(2));
    let text = format!("{}~{}", carried(&b1, "dob", "1958"), carried(&b2, "dob", "1959"));
    assert_eq!(DisclosureSet::decode(text.as_bytes()), Err(Error::MalformedDisclosures));
}

#[test]
fn set_with_an_unreadable_piece_is_refused() {
    let b = Scalar::from_u64(1);
    let good = carried(&b, "dob", "1958");
    assert_eq!(DisclosureSet::decode(b""), Err(Error::MalformedDisclosures));
    assert_eq!(
        DisclosureSet::decode(format!("{}~", good).as_bytes()),
        Err(Error::MalformedDisclosures)
    );
    assert_eq!(
        DisclosureSet::decode(format!("{}~!!", good).as_bytes()),
        Err(Error::MalformedDisclosures)
    );
}

#[test]
fn set_grows_by_distinct_names() {
    let d = |name: &str| Disclosure {
        blinding: Scalar::from_u64(3),
        name: name.to_string(),
        value: "1".to_string(),
    };
    let set = DisclosureSet::new();
    assert_eq!(set.len(), 0);
    let set = set.with(d("a")).unwrap();
    let set = set.with(d("b")).unwrap();
    assert_eq!(set.len(), 2);
    assert_eq!(set.entry(1), Some(&d("b")));
    assert_eq!(set.with(d("a")), Err(Error::MalformedDisclosures));
}

#[test]
fn set_is_written_joined() {
    let (b1, b2) = (Scalar::from_u64(1), Scalar::from_u64(2));
    let text = format!("{}~{}", carried(&b1, "test", "\"abc\""), carried(&b2, "dob", "1958"));
    let set = DisclosureSet::decode(text.as_bytes()).unwrap();
    assert_eq!(set.encode(), Ok(text.into_bytes()));
    assert_eq!(DisclosureSet::new().encode(), Ok(Vec::new()));
}

#[test]
fn set_with_a_value_that_is_no_json_is_not_written() {
    let set = DisclosureSet::new()
        .with(Disclosure {
            blinding: Scalar::from_u64(3),
            name: "a".to_string(),
            value: "]".to_string(),
        })
        .unwrap();
    assert_eq!(set.encode(), Err(Error::MalformedDisclosures));
}

#[test]
fn error_messages() {
    assert_eq!(Error::InvalidEncoding.message(), "invalid encoding");
    assert_eq!(Error::UnknownAttribute.message(), "unknown attribute");
    assert_eq!(Error::IndexOutOfRange.message(), "index out of range");
    assert_eq!(Error::MalformedDisclosures.message(), "malformed disclosures");
    assert_eq!(Error::ProtocolPrecondition.message(), "protocol precondition");
}
