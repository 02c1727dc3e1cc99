use server::database::auth::resolve_permission;
use server::database::structures::PermissionLevel;
use server::utils::auth::bearer_token;
use server::utils::auth::AuthorizationHeader;
use server::utils::auth::Claim;
use server::utils::auth::Rejection;
use server::websocket::auth::resolve_role;
use server::websocket::structures::ClientRole;
use jsonwebtoken::errors::ErrorKind;

fn claim(role: Option<&str>, permissionlevel: Option<&str>) -> Claim {
    Claim {
        sub: "7".to_string(),
        username: "ada".to_string(),
        role: role.map(|r| r.to_string()),
        permissionlevel: permissionlevel.map(|p| p.to_string()),
        exp: 2_000_000_000,
    }
}

#[test]
fn role_of_a_claim() {
    let access = server::websocket::auth::auth_access(claim(Some("receiver"), None));
    assert_eq!(access.ok(), Some(ClientRole::Receiver));
    let access = server::websocket::auth::auth_access(claim(Some("sender"), None));
    assert_eq!(access.ok(), Some(ClientRole::Sender));
}

#[test]
fn unknown_or_missing_role_is_an_invalid_token() {
    for role in [None, Some(""), Some("Sender"), Some("sender "), Some("admin"), Some("receivers")]
    {
        let access = server::websocket::auth::auth_access(claim(role, Some("admin")));
        match access {
            Ok(granted) => panic!("granted {:?} for {:?}", granted, role),
            Err(error) => assert_eq!(error.kind(), &ErrorKind::InvalidToken),
        }
    }
}

#[test]
fn permission_level_of_a_claim() {
    let access = server::database::auth::auth_access(claim(None, Some("user")));
    assert_eq!(access.ok(), Some(PermissionLevel::User));
    let access = server::database::auth::auth_access(claim(None, Some("admin")));
    assert_eq!(access.ok(), Some(PermissionLevel::Admin));
}

#[test]
fn unknown_or_missing_level_is_an_invalid_token() {
    for level in [None, Some(""), Some("Admin"), Some("root"), Some("sender")] {
        let access = server::database::auth::auth_access(claim(Some("sender"), level));
        match access {
            Ok(granted) => panic!("granted {:?} for {:?}", granted, level),
            Err(error) => assert_eq!(error.kind(), &ErrorKind::InvalidToken),
        }
    }
}

#[test]
fn role_resolution() {
    assert_eq!(resolve_role(None).err(), Some(Rejection::InvalidToken));
    assert_eq!(
        resolve_role(Some(claim(None, Some("admin")))).err(),
        Some(Rejection::PermissionDenied)
    );
    assert_eq!(
        resolve_role(Some(claim(Some("publisher"), None))).err(),
        Some(Rejection::PermissionDenied)
    );
    let role = resolve_role(Some(claim(Some("sender"), None))).ok().unwrap();
    assert_eq!(role.0, ClientRole::Sender);
    let role = resolve_role(Some(claim(Some("receiver"), None))).ok().unwrap();
    assert_eq!(role.0, ClientRole::Receiver);
}

#[test]
fn permission_resolution() {
    assert_eq!(resolve_permission(None).err(), Some(Rejection::InvalidToken));
    assert_eq!(
        resolve_permission(Some(claim(Some("sender"), None))).err(),
        Some(Rejection::PermissionDenied)
    );
    let permission = resolve_permission(Some(claim(None, Some("user")))).ok().unwrap();
    assert_eq!(permission.0, PermissionLevel::User);
    let permission = resolve_permission(Some(claim(None, Some("admin")))).ok().unwrap();
    assert_eq!(permission.0, PermissionLevel::Admin);
}

#[test]
fn bearer_token_is_what_follows_the_scheme() {
    let header = AuthorizationHeader::Text("Bearer abc.def.ghi".to_string());
    assert_eq!(bearer_token(header), Ok("abc.def.ghi".to_string()));
    let header = AuthorizationHeader::Text("Bearer ".to_string());
    assert_eq!(bearer_token(header), Ok(String::new()));
    let header = AuthorizationHeader::Text("Bearer  two".to_string());
    assert_eq!(bearer_token(header), Ok(" two".to_string()));
    let header = AuthorizationHeader::Text("Bearer Bearer x".to_string());
    assert_eq!(bearer_token(header), Ok("Bearer x".to_string()));
    let header = AuthorizationHeader::Text("Bearer t\u{e9}l\u{e9}".to_string());
    assert_eq!(bearer_token(header), Ok("t\u{e9}l\u{e9}".to_string()));
}

#[test]
fn header_without_the_scheme_is_rejected() {
    for text in ["", "Bearer", "bearer abc", "Basic abc", " Bearer abc", "Beare r", "Bearerabc"] {
        let header = AuthorizationHeader::Text(text.to_string());
        assert_eq!(bearer_token(header), Err(Rejection::InvalidAuthorizationHeader));
    }
}

#[test]
fn missing_and_unreadable_headers_are_rejected() {
    assert_eq!(bearer_token(AuthorizationHeader::Missing), Err(Rejection::MissingHeader));
    assert_eq!(bearer_token(AuthorizationHeader::Unreadable), Err(Rejection::InvalidHeader));
}

#[test]
fn rejections_answer_with_status_and_words() {
    let expected = [
        (Rejection::MissingHeader, 401, "Missing Authorization header"),
        (Rejection::InvalidHeader, 401, "Invalid header"),
        (Rejection::InvalidAuthorizationHeader, 401, "Invalid Authorization header"),
        (Rejection::InvalidToken, 401, "Invalid token"),
        (Rejection::PermissionDenied, 403, "Permission denied"),
    ];
    for (rejection, status, words) in expected {
        assert_eq!(rejection.status(), status);
        assert_eq!(rejection.message(), words);
    }
}

#[test]
fn issued_claim_expires_after_its_time() {
    let issued = Claim::issue(
        "7".to_string(),
        "ada".to_string(),
        Some("sender".to_string()),
        None,
        1_700_000_000,
        3_600,
    );
    assert_eq!(issued.sub, "7");
    assert_eq!(issued.username, "ada");
    assert_eq!(issued.role, Some("sender".to_string()));
    assert_eq!(issued.permissionlevel, None);
    assert_eq!(issued.exp, 1_700_003_600);
    let at_the_edge = Claim::issue(String::new(), String::new(), None, None, usize::MAX - 1, 1);
    assert_eq!(at_the_edge.exp, usize::MAX);
}
