use langkeeper::commands::{parse_command, parse_u16, server_port, Command, DEFAULT_PORT};
use langkeeper::db::database_url;
use langkeeper::keygen::{generate_secret, replace_jwt_secret, secret_from_indices, SECRET_LENGTH};

#[test]
fn commands_by_name() {
    assert_eq!(parse_command(Some("migrate")), Command::Migrate);
    assert_eq!(parse_command(Some("key:generate")), Command::KeyGenerate);
    assert_eq!(parse_command(Some("seed")), Command::Seed);
    assert_eq!(parse_command(Some("email:verify_current")), Command::EmailVerifyCurrent);
    assert_eq!(parse_command(Some("serve")), Command::Serve);
    assert_eq!(parse_command(Some("Serve")), Command::Invalid);
    assert_eq!(parse_command(Some("")), Command::Invalid);
    assert_eq!(parse_command(None), Command::Missing);
}

#[test]
fn port_parsing_matches_std() {
    for text in ["8080", "+80", "", "+", "-1", "-0", "65535", "65536", "00080", "8a", " 80", "99999999999"] {
        assert_eq!(parse_u16(text), text.parse::<u16>().ok(), "{text}");
    }
}

#[test]
fn server_port_falls_back_to_default() {
    assert_eq!(server_port(Some("443")), (443, true));
    assert_eq!(server_port(Some("http")), (DEFAULT_PORT, false));
    assert_eq!(server_port(None), (8000, false));
}

#[test]
fn database_url_prefers_given_path() {
    assert_eq!(database_url(Some("test.db".to_string()), Some("prod.db".to_string())), Some("test.db".to_string()));
    assert_eq!(database_url(None, Some("prod.db".to_string())), Some("prod.db".to_string()));
    assert_eq!(database_url(None, None), None);
}

#[test]
fn secret_from_charset_positions() {
    assert_eq!(secret_from_indices(&vec![0, 25, 26, 52, 61, 69]), "AZa09~");
    let secret = generate_secret();
    assert_eq!(secret.chars().count(), SECRET_LENGTH);
    let charset = "ABCDEFGHIJKLMNOPQRSTUVWXYZabcdefghijklmnopqrstuvwxyz0123456789)(*%#@!~";
    assert!(secret.chars().all(|c| charset.contains(c)));
}

#[test]
fn env_secret_is_replaced() {
    assert_eq!(
        replace_jwt_secret("A=1\nJWT_SECRET=old\nB=2", "new"),
        "A=1\nJWT_SECRET=new\nB=2\n"
    );
    assert_eq!(replace_jwt_secret("", "new"), "");
    assert_eq!(replace_jwt_secret("\n\n", "new"), "\n\n");
    assert_eq!(replace_jwt_secret("JWT_SECRET=\r\nX=1\r\n", "s"), "JWT_SECRET=s\nX=1\n");
    assert_eq!(replace_jwt_secret("JWT_SECRET", "s"), "JWT_SECRET\n");
    assert_eq!(replace_jwt_secret(" JWT_SECRET=a\nJWT_SECRET=b", "s"), " JWT_SECRET=a\nJWT_SECRET=s\n");
}
