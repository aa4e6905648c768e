use eap::environment::{DotEnv, Environment, Error, FromEnvStr, Local};

fn pairs(items: &[(&str, &str)]) -> Vec<(String, String)> {
    items.iter().map(|(k, v)| (k.to_string(), v.to_string())).collect()
}

#[test]
fn local_reads_typed_values_by_upper_case_key() {
    let env = Local::from_vars(&pairs(&[("PORT", "8080"), ("HOST", "example.org")]));
    assert_eq!(env.get::<u16>("port"), Some(8080));
    assert_eq!(env.get::<u16>("PORT"), Some(8080));
    assert_eq!(env.get::<String>("host"), Some("example.org".to_string()));
    assert_eq!(env.get::<u16>("host"), None);
    assert_eq!(env.get::<u16>("missing"), None);
}

#[test]
fn local_keys_that_are_not_upper_case_are_unreachable() {
    let env = Local::from_vars(&pairs(&[("Path", "/bin")]));
    assert_eq!(env.get::<String>("Path"), None);
    assert_eq!(env.get_raw("path"), None);
}

#[test]
fn local_last_value_of_a_repeated_name_wins() {
    let env = Local::from_vars(&pairs(&[("PORT", "1"), ("PORT", "2")]));
    assert_eq!(env.get::<u16>("port"), Some(2));
}

#[test]
fn get_or_falls_back_on_missing_or_unreadable() {
    let env = Local::from_vars(&pairs(&[("PORT", "8080"), ("BAD", "x1")]));
    assert_eq!(env.get_or("PORT", 443u16), 8080);
    assert_eq!(env.get_or("MISSING", 443u16), 443);
    assert_eq!(env.get_or("BAD", 443u16), 443);
}

#[test]
fn try_get_tells_missing_from_unreadable() {
    let env = Local::from_vars(&pairs(&[("PORT", "8080"), ("BAD", "x1")]));
    assert_eq!(env.try_get::<u16>("port"), Ok(Some(8080)));
    assert_eq!(env.try_get::<u16>("missing"), Ok(None));
    assert_eq!(env.try_get::<u16>("bad"), Err(Error::InvalidValue));
    assert_eq!(env.try_get::<String>("bad"), Ok(Some("x1".to_string())));
}

#[test]
fn try_get_or_matches_get_or() {
    let env = Local::from_vars(&pairs(&[("PORT", "8080"), ("BAD", "x1")]));
    for key in ["PORT", "BAD", "MISSING"] {
        assert_eq!(env.try_get_or(key, 443u16), env.get_or(key, 443u16));
    }
    assert_eq!(env.try_get_or("bad", 7u16), 7);
}

#[test]
fn dotenv_reads_like_local() {
    let env = DotEnv::from_entries(&pairs(&[("QPS_LIMIT", "250"), ("ENABLE_SSL", "true")]));
    assert_eq!(env.get::<usize>("qps_limit"), Some(250));
    assert_eq!(env.get::<bool>("enable_ssl"), Some(true));
    assert_eq!(env.try_get::<bool>("qps_limit"), Err(Error::InvalidValue));
}

#[test]
fn unsigned_text_forms() {
    assert_eq!(u16::from_env_str("443"), Some(443));
    assert_eq!(u16::from_env_str("+443"), Some(443));
    assert_eq!(u16::from_env_str("007"), Some(7));
    assert_eq!(u16::from_env_str("65535"), Some(65535));
    assert_eq!(u16::from_env_str("65536"), None);
    assert_eq!(u16::from_env_str("-1"), None);
    assert_eq!(u16::from_env_str(""), None);
    assert_eq!(u16::from_env_str("+"), None);
    assert_eq!(u16::from_env_str(" 1"), None);
    assert_eq!(u8::from_env_str("256"), None);
    assert_eq!(u32::from_env_str("4294967295"), Some(u32::MAX));
    assert_eq!(u64::from_env_str("18446744073709551615"), Some(u64::MAX));
    assert_eq!(usize::from_env_str("12"), Some(12));
}

#[test]
fn signed_text_forms() {
    assert_eq!(i32::from_env_str("-12"), Some(-12));
    assert_eq!(i32::from_env_str("+12"), Some(12));
    assert_eq!(i32::from_env_str("-0"), Some(0));
    assert_eq!(i32::from_env_str("-2147483648"), Some(i32::MIN));
    assert_eq!(i32::from_env_str("2147483648"), None);
    assert_eq!(i32::from_env_str("-"), None);
    assert_eq!(i64::from_env_str("-9223372036854775808"), Some(i64::MIN));
}

#[test]
fn bool_text_forms() {
    assert_eq!(bool::from_env_str("true"), Some(true));
    assert_eq!(bool::from_env_str("false"), Some(false));
    assert_eq!(bool::from_env_str("True"), None);
    assert_eq!(bool::from_env_str("1"), None);
    assert_eq!(String::from_env_str(" any text "), Some(" any text ".to_string()));
}

#[test]
fn more_integer_and_char_forms() {
    assert_eq!(i8::from_env_str("-128"), Some(i8::MIN));
    assert_eq!(i8::from_env_str("128"), None);
    assert_eq!(i16::from_env_str("+300"), Some(300));
    assert_eq!(i128::from_env_str("-170141183460469231731687303715884105728"), Some(i128::MIN));
    assert_eq!(u128::from_env_str("340282366920938463463374607431768211455"), Some(u128::MAX));
    assert_eq!(u128::from_env_str("-1"), None);
    assert_eq!(isize::from_env_str("-7"), Some(-7));
    assert_eq!(char::from_env_str("x"), Some('x'));
    assert_eq!(char::from_env_str("é"), Some('é'));
    assert_eq!(char::from_env_str("xy"), None);
    assert_eq!(char::from_env_str(""), None);
}

#[test]
fn lookup_ignores_the_case_of_ascii_keys() {
    let env = Local::from_vars(&pairs(&[("QPS_LIMIT", "9")]));
    for key in ["qps_limit", "QPS_LIMIT", "Qps_Limit"] {
        assert_eq!(env.get::<u8>(key), Some(9));
    }
    let dot = DotEnv::from_entries(&pairs(&[("HOST", "h")]));
    assert_eq!(dot.get_raw("host"), dot.get_raw("HoSt"));
}
