use serde_json::Value;
use vault_store::codec::{
    account_value, accounts_value, decode_accounts, decode_export, decode_passwords,
    encode_accounts, encode_export, encode_passwords, export_value, password_value,
    passwords_value, read_account, read_accounts, read_count, read_export, read_password,
    read_passwords, read_text, DecodeError, Fault,
};
use vault_store::entry::{ExportData, Field, PasswordEntry, TwoFactorAccount};

fn json(text: &str) -> Value {
    serde_json::from_str(text).unwrap()
}

fn sample_entry() -> PasswordEntry {
    PasswordEntry {
        id: "1".to_string(),
        website: "example.com".to_string(),
        username: "a".to_string(),
        password: "p".to_string(),
        category: "general".to_string(),
        last_updated: "2024-01-01".to_string(),
    }
}

fn sample_account() -> TwoFactorAccount {
    TwoFactorAccount {
        id: "2".to_string(),
        name: "GitHub".to_string(),
        issuer: "GitHub".to_string(),
        secret: "JBSWY3DPEHPK3PXP".to_string(),
        type_: "totp".to_string(),
        algorithm: "SHA1".to_string(),
        digits: 6,
        period: 30,
    }
}

const ENTRY_TEXT: &str = "{\"id\":\"1\",\"website\":\"example.com\",\"username\":\"a\",\
    \"password\":\"p\",\"category\":\"general\",\"lastUpdated\":\"2024-01-01\"}";

const ACCOUNT_TEXT: &str = "{\"id\":\"2\",\"name\":\"GitHub\",\"issuer\":\"GitHub\",\
    \"secret\":\"JBSWY3DPEHPK3PXP\",\"type\":\"totp\",\"algorithm\":\"SHA1\",\"digits\":6,\
    \"period\":30}";

#[test]
fn wire_names() {
    assert_eq!(Field::Id.wire_name(), "id");
    assert_eq!(Field::Website.wire_name(), "website");
    assert_eq!(Field::Username.wire_name(), "username");
    assert_eq!(Field::Password.wire_name(), "password");
    assert_eq!(Field::Category.wire_name(), "category");
    assert_eq!(Field::LastUpdated.wire_name(), "lastUpdated");
    assert_eq!(Field::Name.wire_name(), "name");
    assert_eq!(Field::Issuer.wire_name(), "issuer");
    assert_eq!(Field::Secret.wire_name(), "secret");
    assert_eq!(Field::Type.wire_name(), "type");
    assert_eq!(Field::Algorithm.wire_name(), "algorithm");
    assert_eq!(Field::Digits.wire_name(), "digits");
    assert_eq!(Field::Period.wire_name(), "period");
    assert_eq!(Field::Passwords.wire_name(), "passwords");
    assert_eq!(Field::TwoFactorAccounts.wire_name(), "two_factor_accounts");
}

#[test]
fn read_text_of_a_member() {
    let v = json("{\"id\":\"7\",\"digits\":6,\"nothing\":null}");
    assert_eq!(read_text(&v, Field::Id), Ok("7".to_string()));
    assert_eq!(read_text(&v, Field::Website), Err(Fault::Missing(Field::Website)));
    assert_eq!(read_text(&v, Field::Digits), Err(Fault::Mistyped(Field::Digits)));
    assert_eq!(read_text(&json("[]"), Field::Id), Err(Fault::NotARecord));
    assert_eq!(read_text(&json("\"id\""), Field::Id), Err(Fault::NotARecord));
    assert_eq!(read_text(&json("{\"id\":null}"), Field::Id), Err(Fault::Mistyped(Field::Id)));
}

#[test]
fn read_count_of_a_member() {
    let v = json("{\"digits\":6,\"period\":\"30\"}");
    assert_eq!(read_count(&v, Field::Digits), Ok(6));
    assert_eq!(read_count(&v, Field::Period), Err(Fault::Mistyped(Field::Period)));
    assert_eq!(read_count(&json("{}"), Field::Digits), Err(Fault::Missing(Field::Digits)));
    assert_eq!(read_count(&json("6"), Field::Digits), Err(Fault::NotARecord));
}

#[test]
fn read_count_at_the_limits() {
    assert_eq!(read_count(&json("{\"digits\":0}"), Field::Digits), Ok(0));
    assert_eq!(read_count(&json("{\"digits\":4294967295}"), Field::Digits), Ok(4294967295));
    assert_eq!(
        read_count(&json("{\"digits\":4294967296}"), Field::Digits),
        Err(Fault::Mistyped(Field::Digits))
    );
    assert_eq!(
        read_count(&json("{\"digits\":-1}"), Field::Digits),
        Err(Fault::Mistyped(Field::Digits))
    );
    assert_eq!(
        read_count(&json("{\"digits\":6.0}"), Field::Digits),
        Err(Fault::Mistyped(Field::Digits))
    );
    assert_eq!(
        read_count(&json("{\"digits\":18446744073709551616}"), Field::Digits),
        Err(Fault::Mistyped(Field::Digits))
    );
}

#[test]
fn read_a_password() {
    assert_eq!(read_password(&json(ENTRY_TEXT)), Ok(sample_entry()));
}

#[test]
fn read_a_password_in_any_member_order_with_unknown_members() {
    let v = json(
        "{\"lastUpdated\":\"2024-01-01\",\"notes\":[1,2],\"category\":\"general\",\
         \"password\":\"p\",\"username\":\"a\",\"website\":\"example.com\",\"id\":\"1\",\
         \"last_updated\":\"1999\"}",
    );
    assert_eq!(read_password(&v), Ok(sample_entry()));
}

#[test]
fn the_field_name_of_the_struct_is_not_a_wire_name() {
    let v = json(
        "{\"id\":\"1\",\"website\":\"example.com\",\"username\":\"a\",\"password\":\"p\",\
         \"category\":\"general\",\"last_updated\":\"2024-01-01\"}",
    );
    assert_eq!(read_password(&v), Err(Fault::Missing(Field::LastUpdated)));
    let v = json(
        "{\"id\":\"2\",\"name\":\"GitHub\",\"issuer\":\"GitHub\",\"secret\":\"S\",\
         \"type_\":\"totp\",\"algorithm\":\"SHA1\",\"digits\":6,\"period\":30}",
    );
    assert_eq!(read_account(&v), Err(Fault::Missing(Field::Type)));
}

#[test]
fn the_first_failing_field_is_reported() {
    let v = json("{\"id\":\"1\",\"username\":5,\"category\":\"general\"}");
    assert_eq!(read_password(&v), Err(Fault::Missing(Field::Website)));
    let v = json("{\"id\":\"1\",\"website\":\"w\",\"username\":5}");
    assert_eq!(read_password(&v), Err(Fault::Mistyped(Field::Username)));
    assert_eq!(read_password(&json("{}")), Err(Fault::Missing(Field::Id)));
    assert_eq!(read_password(&json("[]")), Err(Fault::NotARecord));
    assert_eq!(read_password(&json("null")), Err(Fault::NotARecord));
}

#[test]
fn read_an_account() {
    assert_eq!(read_account(&json(ACCOUNT_TEXT)), Ok(sample_account()));
}

#[test]
fn read_an_account_with_faults() {
    let v = json(
        "{\"id\":\"2\",\"name\":\"GitHub\",\"issuer\":\"GitHub\",\"secret\":\"S\",\
         \"type\":\"totp\",\"algorithm\":\"SHA1\",\"digits\":\"6\",\"period\":30}",
    );
    assert_eq!(read_account(&v), Err(Fault::Mistyped(Field::Digits)));
    let v = json(
        "{\"id\":\"2\",\"name\":\"GitHub\",\"issuer\":\"GitHub\",\"secret\":\"S\",\
         \"type\":\"totp\",\"algorithm\":\"SHA1\",\"digits\":6}",
    );
    assert_eq!(read_account(&v), Err(Fault::Missing(Field::Period)));
    let v = json(
        "{\"id\":\"2\",\"name\":\"GitHub\",\"issuer\":\"GitHub\",\"secret\":\"S\",\
         \"type\":\"totp\",\"algorithm\":1,\"digits\":\"6\"}",
    );
    assert_eq!(read_account(&v), Err(Fault::Mistyped(Field::Algorithm)));
    assert_eq!(read_account(&json("7")), Err(Fault::NotARecord));
}

#[test]
fn digits_and_period_are_not_range_checked() {
    let v = json(
        "{\"id\":\"\",\"name\":\"\",\"issuer\":\"\",\"secret\":\"not base32!\",\
         \"type\":\"\",\"algorithm\":\"MD5\",\"digits\":0,\"period\":4294967295}",
    );
    let account = read_account(&v).unwrap();
    assert_eq!(account.digits, 0);
    assert_eq!(account.period, 4294967295);
    assert_eq!(account.algorithm, "MD5");
    assert_eq!(account.secret, "not base32!");
}

#[test]
fn read_collections() {
    let text = format!("[{},{}]", ENTRY_TEXT, ENTRY_TEXT);
    assert_eq!(read_passwords(&json(&text)), Ok(vec![sample_entry(), sample_entry()]));
    assert_eq!(read_passwords(&json("[]")), Ok(vec![]));
    assert_eq!(read_passwords(&json("{}")), Err(Fault::NotAList));
    let text = format!("[{}]", ACCOUNT_TEXT);
    assert_eq!(read_accounts(&json(&text)), Ok(vec![sample_account()]));
    assert_eq!(read_accounts(&json("[]")), Ok(vec![]));
    assert_eq!(read_accounts(&json("\"[]\"")), Err(Fault::NotAList));
}

#[test]
fn the_first_failing_item_is_reported() {
    let text = format!("[{},{{\"id\":1}},7]", ENTRY_TEXT);
    assert_eq!(read_passwords(&json(&text)), Err(Fault::Mistyped(Field::Id)));
    let text = format!("[{},7,{{\"id\":1}}]", ENTRY_TEXT);
    assert_eq!(read_passwords(&json(&text)), Err(Fault::NotARecord));
    let text = format!("[{},{{}}]", ACCOUNT_TEXT);
    assert_eq!(read_accounts(&json(&text)), Err(Fault::Missing(Field::Id)));
}

#[test]
fn read_a_bundle() {
    let text = format!(
        "{{\"version\":3,\"two_factor_accounts\":[{}],\"passwords\":[{}]}}",
        ACCOUNT_TEXT, ENTRY_TEXT
    );
    assert_eq!(
        read_export(&json(&text)),
        Ok(ExportData {
            passwords: vec![sample_entry()],
            two_factor_accounts: vec![sample_account()],
        })
    );
}

#[test]
fn read_a_bundle_with_faults() {
    assert_eq!(read_export(&json("[]")), Err(Fault::NotARecord));
    assert_eq!(read_export(&json("{}")), Err(Fault::Missing(Field::Passwords)));
    assert_eq!(
        read_export(&json("{\"passwords\":[]}")),
        Err(Fault::Missing(Field::TwoFactorAccounts))
    );
    assert_eq!(
        read_export(&json("{\"passwords\":{},\"two_factor_accounts\":[]}")),
        Err(Fault::NotAList)
    );
    assert_eq!(
        read_export(&json("{\"passwords\":[{}],\"two_factor_accounts\":7}")),
        Err(Fault::Missing(Field::Id))
    );
    assert_eq!(
        read_export(&json("{\"passwords\":[],\"two_factor_accounts\":[[]]}")),
        Err(Fault::NotARecord)
    );
}

#[test]
fn values_of_entries() {
    assert_eq!(password_value(&sample_entry()), json(ENTRY_TEXT));
    assert_eq!(account_value(&sample_account()), json(ACCOUNT_TEXT));
    assert_eq!(
        passwords_value(&vec![sample_entry(), sample_entry()]),
        json(&format!("[{},{}]", ENTRY_TEXT, ENTRY_TEXT))
    );
    assert_eq!(accounts_value(&vec![]), json("[]"));
    assert_eq!(
        export_value(&ExportData {
            passwords: vec![sample_entry()],
            two_factor_accounts: vec![sample_account()],
        }),
        json(&format!(
            "{{\"passwords\":[{}],\"two_factor_accounts\":[{}]}}",
            ENTRY_TEXT, ACCOUNT_TEXT
        ))
    );
}

#[test]
fn a_value_has_the_wire_names_and_no_others() {
    let v = password_value(&sample_entry());
    let names: Vec<&str> = v.as_object().unwrap().keys().map(|k| k.as_str()).collect();
    assert_eq!(names, vec!["id", "website", "username", "password", "category", "lastUpdated"]);
    let v = account_value(&sample_account());
    let names: Vec<&str> = v.as_object().unwrap().keys().map(|k| k.as_str()).collect();
    assert_eq!(
        names,
        vec!["id", "name", "issuer", "secret", "type", "algorithm", "digits", "period"]
    );
    assert_eq!(v["digits"].as_u64(), Some(6));
    assert_eq!(v["period"].as_u64(), Some(30));
}

#[test]
fn encoded_text() {
    assert_eq!(encode_passwords(&vec![sample_entry()]), Ok(format!("[{}]", ENTRY_TEXT)));
    assert_eq!(encode_accounts(&vec![sample_account()]), Ok(format!("[{}]", ACCOUNT_TEXT)));
    assert_eq!(encode_passwords(&vec![]), Ok("[]".to_string()));
    assert_eq!(
        encode_export(&ExportData { passwords: vec![], two_factor_accounts: vec![] }),
        Ok("{\"passwords\":[],\"two_factor_accounts\":[]}".to_string())
    );
}

#[test]
fn text_round_trip_with_awkward_strings() {
    let entry = PasswordEntry {
        id: String::new(),
        website: "https://example.com/?q=\"a\"&b=\\".to_string(),
        username: "tab\there\nnewline\u{0}nul".to_string(),
        password: "pässwörd \u{1F511} \u{7f}".to_string(),
        category: "{\"id\":\"1\"}".to_string(),
        last_updated: "not a date".to_string(),
    };
    let list = vec![entry.clone(), sample_entry(), entry];
    let text = encode_passwords(&list).unwrap();
    assert_eq!(decode_passwords(&text), Ok(list));
}

#[test]
fn text_round_trip_of_accounts_at_the_limits() {
    let mut wide = sample_account();
    wide.digits = u32::MAX;
    wide.period = 0;
    let list = vec![sample_account(), wide];
    let text = encode_accounts(&list).unwrap();
    assert_eq!(decode_accounts(&text), Ok(list));
}

#[test]
fn text_round_trip_of_a_bundle() {
    let data = ExportData {
        passwords: vec![sample_entry(), sample_entry()],
        two_factor_accounts: vec![sample_account()],
    };
    let text = encode_export(&data).unwrap();
    assert_eq!(decode_export(&text), Ok(data));
}

#[test]
fn decode_accepts_white_space() {
    let text = format!(" [\n  {}\n]\n", ENTRY_TEXT);
    assert_eq!(decode_passwords(&text), Ok(vec![sample_entry()]));
}

#[test]
fn decode_tells_syntax_from_shape() {
    assert!(matches!(decode_passwords("[{"), Err(DecodeError::Syntax(_))));
    assert!(matches!(decode_passwords(""), Err(DecodeError::Syntax(_))));
    assert!(matches!(decode_passwords("[] []"), Err(DecodeError::Syntax(_))));
    assert_eq!(decode_passwords("{}"), Err(DecodeError::Shape(Fault::NotAList)));
    assert_eq!(decode_passwords("[1]"), Err(DecodeError::Shape(Fault::NotARecord)));
    assert!(matches!(decode_accounts("nope"), Err(DecodeError::Syntax(_))));
    assert_eq!(
        decode_accounts("[{}]"),
        Err(DecodeError::Shape(Fault::Missing(Field::Id)))
    );
    assert!(matches!(decode_export("{\"passwords\":"), Err(DecodeError::Syntax(_))));
    assert_eq!(
        decode_export("{\"two_factor_accounts\":[]}"),
        Err(DecodeError::Shape(Fault::Missing(Field::Passwords)))
    );
}

#[test]
fn the_message_of_a_syntax_error_is_the_parser_s() {
    match decode_passwords("[{") {
        Err(DecodeError::Syntax(message)) => {
            let expected = serde_json::from_str::<Value>("[{").unwrap_err().to_string();
            assert_eq!(message, expected);
        }
        other => panic!("{:?}", other),
    }
}

#[test]
fn fault_messages() {
    assert_eq!(Fault::NotAList.message(), "expected an array");
    assert_eq!(Fault::NotARecord.message(), "expected an object");
    assert_eq!(Fault::Missing(Field::Id).message(), "missing field `id`");
    assert_eq!(
        Fault::Mistyped(Field::TwoFactorAccounts).message(),
        "invalid type for field `two_factor_accounts`"
    );
}
