use wrangler::global_user::{global_config_dir_plan, GlobalUser};

#[test]
fn user_from_configuration() {
    let u = GlobalUser { email: "me@example.com".to_string(), api_key: "SECRET-REDACTED".to_string() };
    let r = GlobalUser::new(Ok(u)).unwrap();
    assert_eq!(r.email, "me@example.com");
    assert_eq!(r.api_key, "SECRET-REDACTED");
}

#[test]
fn broken_configuration_explained() {
    let r = GlobalUser::new(Err("missing field `email`".to_string()));
    assert_eq!(
        r.err(),
        Some("\u{26a0}\u{fe0f}  Your global config has an error, run `wrangler config`: missing field `email`".to_string())
    );
}

#[test]
fn config_dir_prefers_wrangler_home() {
    let p = global_config_dir_plan(Some("/opt/w".to_string()));
    assert_eq!(p.base, Some("/opt/w".to_string()));
    assert_eq!(p.components, vec!["config".to_string()]);
    let q = global_config_dir_plan(None);
    assert_eq!(q.base, None);
    assert_eq!(q.components, vec![".wrangler".to_string(), "config".to_string()]);
}
