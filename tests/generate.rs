use notifbot_enum::emit::emit;
use notifbot_enum::invocation::{parse_invocation, split_invocation, GenerationRequest, InvocationError};
use notifbot_enum::notifbot_enum;
use notifbot_enum::schema::{EnumSchema, MAX_VARIANTS};
use notifbot_enum::text::{chars_of, decimal_text, lower_chars, string_of, trim_chars};

fn schema_of(text: &str) -> EnumSchema {
    let req = parse_invocation(text).unwrap();
    EnumSchema::build(&req).unwrap()
}

fn request(names: &[&str]) -> GenerationRequest {
    GenerationRequest {
        enum_name: "E".to_string(),
        variants: names.iter().map(|n| n.to_string()).collect(),
    }
}

#[test]
fn status_scenario_codes_labels_and_display() {
    let s = schema_of("Status(Active, Inactive, Pending)");
    assert_eq!(s.enum_name, "Status");
    let names = ["Active", "Inactive", "Pending"];
    let labels = ["active", "inactive", "pending"];
    assert_eq!(s.variants.len(), 3);
    for i in 0..3 {
        assert_eq!(s.code_of(i), i as i8);
        assert_eq!(s.to_str(i), labels[i]);
        assert_eq!(s.display(i), names[i]);
    }
    assert_eq!(s.variant_of_code(1), Some(1));
    assert_eq!(s.display(s.variant_of_code(1).unwrap()), "Inactive");
    assert_eq!(s.variant_of_code(5), None);
}

#[test]
fn status_scenario_generated_text() {
    let out = notifbot_enum("Status(Active, Inactive, Pending)").unwrap();
    assert!(out.contains("pub enum Status {\n"));
    assert!(out.contains("    #[serde(alias = \"Active\", alias = \"active\")]\n    Active = 0u8,\n"));
    assert!(out.contains("    Inactive = 1u8,\n"));
    assert!(out.contains("    Pending = 2u8,\n"));
    assert!(out.contains("            Status::Active => 0i8,\n"));
    assert!(out.contains("            Status::Pending => 2i8,\n"));
    assert!(out.contains("            1i8 => Status::Inactive,\n"));
    assert!(out.contains("            _ => panic!(\"no variant has this code\"),\n"));
    assert!(out.contains("            Status::Active => \"active\",\n"));
    assert!(out.contains("            Status::Pending => f.write_str(\"Pending\"),\n"));
    assert!(out.contains("impl From<&Status> for i8 {\n"));
    assert!(out.contains("impl From<&Status> for &'static str {\n"));
    assert!(!out.contains("5i8"));
}

#[test]
fn single_variant_full_text() {
    let out = notifbot_enum("E { A }").unwrap();
    let expected = "#[repr(u8)]\n#[derive(Debug, serde::Serialize, serde::Deserialize, PartialEq)]\npub enum E {\n    #[serde(alias = \"A\", alias = \"a\")]\n    A = 0u8,\n}\n\n\
impl From<E> for i8 {\n    fn from(v: E) -> i8 {\n        match v {\n            E::A => 0i8,\n        }\n    }\n}\n\n\
impl From<&E> for i8 {\n    fn from(v: &E) -> i8 {\n        match v {\n            E::A => 0i8,\n        }\n    }\n}\n\n\
impl From<i8> for E {\n    fn from(v: i8) -> E {\n        match v {\n            0i8 => E::A,\n            _ => panic!(\"no variant has this code\"),\n        }\n    }\n}\n\n\
impl From<E> for &'static str {\n    fn from(v: E) -> &'static str {\n        match v {\n            E::A => \"a\",\n        }\n    }\n}\n\n\
impl From<&E> for &'static str {\n    fn from(v: &E) -> &'static str {\n        match v {\n            E::A => \"a\",\n        }\n    }\n}\n\n\
impl E {\n    pub fn to_str(&self) -> &'static str {\n        self.into()\n    }\n}\n\n\
impl std::fmt::Display for E {\n    fn fmt(&self, f: &mut std::fmt::Formatter<'_>) -> std::fmt::Result {\n        match self {\n            E::A => f.write_str(\"A\"),\n        }\n    }\n}\n\n";
    assert_eq!(out, expected);
}

#[test]
fn code_round_trip_for_every_variant() {
    let s = schema_of("Kind(One, Two, Three, Four, Five)");
    for i in 0..5 {
        let c = s.code_of(i);
        assert_eq!(c, i as i8);
        assert_eq!(s.variant_of_code(c), Some(i));
    }
}

#[test]
fn unknown_codes_name_no_variant() {
    let s = schema_of("Kind(One, Two)");
    assert_eq!(s.variant_of_code(2), None);
    assert_eq!(s.variant_of_code(-1), None);
    assert_eq!(s.variant_of_code(127), None);
    assert_eq!(s.variant_of_code(-128), None);
}

#[test]
fn label_is_lowercase_and_display_keeps_case() {
    let s = schema_of("Cmd(StartNow, stop, HTTP_Get2)");
    assert_eq!(s.to_str(0), "startnow");
    assert_eq!(s.display(0), "StartNow");
    assert_eq!(s.to_str(1), "stop");
    assert_eq!(s.display(1), "stop");
    assert_eq!(s.to_str(2), "http_get2");
    assert_eq!(s.display(2), "HTTP_Get2");
    assert_ne!(s.to_str(0), s.display(0));
}

#[test]
fn both_spellings_deserialize_to_the_same_variant() {
    let s = schema_of("Status(Active, Inactive, Pending)");
    assert_eq!(s.deserialize("Active"), Some(0));
    assert_eq!(s.deserialize("active"), Some(0));
    assert_eq!(s.deserialize("Pending"), Some(2));
    assert_eq!(s.deserialize("pending"), Some(2));
    assert_eq!(s.deserialize("ACTIVE"), None);
    assert_eq!(s.deserialize(""), None);
}

#[test]
fn blank_invocation_is_rejected() {
    assert_eq!(notifbot_enum(""), Err(InvocationError::Empty));
    assert_eq!(notifbot_enum(" \n\t "), Err(InvocationError::Empty));
}

#[test]
fn missing_delimiters_are_rejected() {
    assert_eq!(notifbot_enum("Status Active, Inactive"), Err(InvocationError::MissingDelimiter));
    assert_eq!(notifbot_enum("Status(Active, Inactive"), Err(InvocationError::MissingDelimiter));
    assert_eq!(notifbot_enum("Status(Active, Inactive}"), Err(InvocationError::MissingDelimiter));
    assert_eq!(notifbot_enum("Status("), Err(InvocationError::MissingDelimiter));
}

#[test]
fn non_identifiers_are_rejected() {
    assert_eq!(notifbot_enum("9Lives(A, B)"), Err(InvocationError::BadTypeName));
    assert_eq!(notifbot_enum("(A, B)"), Err(InvocationError::BadTypeName));
    assert_eq!(notifbot_enum("S(A, 1b)"), Err(InvocationError::BadVariant(1)));
    assert_eq!(notifbot_enum("S(A, B,)"), Err(InvocationError::BadVariant(2)));
    assert_eq!(notifbot_enum("S()"), Err(InvocationError::BadVariant(0)));
    assert_eq!(notifbot_enum("S(A, fn)"), Err(InvocationError::BadVariant(1)));
    assert_eq!(notifbot_enum("S(A B, C)"), Err(InvocationError::BadVariant(0)));
}

#[test]
fn only_ascii_words_are_identifiers() {
    assert_eq!(notifbot_enum("S(A /* c */, B)"), Err(InvocationError::BadVariant(0)));
    assert_eq!(notifbot_enum("S(A // c\n, B)"), Err(InvocationError::BadVariant(0)));
    assert_eq!(notifbot_enum("S(A - B, C)"), Err(InvocationError::BadVariant(0)));
    assert_eq!(notifbot_enum("S(A, , B)"), Err(InvocationError::BadVariant(1)));
    assert_eq!(notifbot_enum("S(\u{e9}t\u{e9})"), Err(InvocationError::BadVariant(0)));
    assert_eq!(notifbot_enum("S(_)"), Err(InvocationError::BadVariant(0)));
    assert_eq!(notifbot_enum("S(A, self)"), Err(InvocationError::BadVariant(1)));
    assert_eq!(notifbot_enum("r#S(A)"), Err(InvocationError::BadTypeName));
    assert_eq!(notifbot_enum("struct(A)"), Err(InvocationError::BadTypeName));
    assert!(notifbot_enum("_S(_a, b_2, C9)").is_ok());
}

#[test]
fn case_colliding_variants_are_rejected() {
    assert_eq!(notifbot_enum("S(Foo, Bar, FOO)"), Err(InvocationError::DuplicateVariant(2)));
    assert_eq!(notifbot_enum("S(A, A)"), Err(InvocationError::DuplicateVariant(1)));
}

#[test]
fn variant_count_limit() {
    let names: Vec<String> = (0..MAX_VARIANTS).map(|i| format!("V{}", i)).collect();
    let ok = format!("Big({})", names.join(", "));
    let out = notifbot_enum(&ok).unwrap();
    assert!(out.contains("            126i8 => Big::V126,\n"));
    let mut more = names.clone();
    more.push("Extra".to_string());
    let too_many = format!("Big({})", more.join(", "));
    assert_eq!(notifbot_enum(&too_many), Err(InvocationError::TooManyVariants));
}

#[test]
fn build_rejects_an_empty_request() {
    assert!(matches!(EnumSchema::build(&request(&[])), Err(InvocationError::NoVariants)));
    let s = EnumSchema::build(&request(&["X", "y"])).unwrap();
    assert_eq!(s.variants[1].alias, "y");
    assert_eq!(s.variants[1].ordinal, 1);
    assert!(emit(&s).contains("            E::y => f.write_str(\"y\"),\n"));
}

#[test]
fn split_accepts_braces_and_spaced_tokens() {
    let r = split_invocation("  Status { Active , Inactive }  ").unwrap();
    assert_eq!(r.enum_name, "Status");
    assert_eq!(r.variants, vec!["Active".to_string(), "Inactive".to_string()]);
    let r = split_invocation("Status (Active , Inactive)").unwrap();
    assert_eq!(r.enum_name, "Status");
    assert_eq!(r.variants, vec!["Active".to_string(), "Inactive".to_string()]);
    let r = split_invocation("T(,)").unwrap();
    assert_eq!(r.variants, vec![String::new(), String::new()]);
}

#[test]
fn decimal_numerals() {
    assert_eq!(decimal_text(0), "0");
    assert_eq!(decimal_text(7), "7");
    assert_eq!(decimal_text(42), "42");
    assert_eq!(decimal_text(100), "100");
    assert_eq!(decimal_text(127), "127");
    assert_eq!(decimal_text(255), "255");
}

#[test]
fn character_helpers() {
    let v = chars_of("  AbC_9é ");
    assert_eq!(v.len(), 9);
    assert_eq!(string_of(&lower_chars(&v)), "  abc_9é ");
    assert_eq!(string_of(&trim_chars(&v)), "AbC_9é");
}
