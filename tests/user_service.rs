use user_auth::error::ApiError;
use user_auth::user::{Model, Timestamp, UpdateUser, UserCreateCommand, UserResponse, UserUpdateCommand};
use user_auth::user_service::{get_user_list, update_user};

fn generate_user() -> Model {
    Model {
        id: 1,
        name: "name".to_string(),
        email: "test@example.com".to_string(),
        hashed_password: "password".to_string(),
        is_active: true,
        is_admin: false,
        updated_dtm: None,
        created_dtm: Timestamp { secs: 1_700_000_000, nanos: 5 },
    }
}

#[test]
fn find_all_user() {
    let result = get_user_list(vec![generate_user(), generate_user(), generate_user()]);
    assert!(result.len() == 3);
}

#[test]
fn user_list_keeps_order() {
    let mut second = generate_user();
    second.id = 2;
    second.name = "other".to_string();
    let result = get_user_list(vec![generate_user(), second]);
    assert_eq!(result[0].id, 1);
    assert_eq!(result[1].id, 2);
    assert_eq!(result[1].name, "other");
    assert!(get_user_list(Vec::new()).is_empty());
}

#[test]
fn get_user() {
    let result = user_auth::user_service::get_user(Some(generate_user()));
    assert!(result.is_ok());
    let r = result.unwrap();
    assert_eq!(r.id, 1);
    assert_eq!(r.email, "test@example.com");
    assert_eq!(r.created_dtm, Timestamp { secs: 1_700_000_000, nanos: 5 });
}

#[test]
fn user_not_found() {
    let result = user_auth::user_service::get_user(None);
    assert!(matches!(result, Err(ApiError::UserNotFound)));
}

#[test]
fn update_success() {
    let req = UpdateUser { name: Some("name".to_string()), email: Some("test@example.com".to_string()) };
    let now = Timestamp { secs: 1_800_000_000, nanos: 0 };
    let result = update_user(Some(generate_user()), req, now);
    assert!(result.is_ok());
    assert_eq!(result.unwrap().updated_dtm, Some(now));
}

#[test]
fn update_changes_only_given_fields() {
    let req = UpdateUser { name: Some("new".to_string()), email: None };
    let now = Timestamp { secs: 9, nanos: 1 };
    let u = update_user(Some(generate_user()), req, now).unwrap();
    assert_eq!(u.name, "new");
    assert_eq!(u.email, "test@example.com");
    assert_eq!(u.id, 1);
    let response = UserResponse::from(u);
    assert_eq!(response.updated_dtm, Some(now));
}

#[test]
fn update_user_not_found() {
    let req = UpdateUser { name: Some("name".to_string()), email: Some("test@example.com".to_string()) };
    let result = update_user(None, req, Timestamp { secs: 0, nanos: 0 });
    assert!(matches!(result, Err(ApiError::UserNotFound)));
}

#[test]
fn update_command_applies() {
    let command = UserUpdateCommand::from(UpdateUser { name: None, email: Some("z@z.z".to_string()) });
    let u = command.apply(generate_user(), Timestamp { secs: 3, nanos: 0 });
    assert_eq!(u.email, "z@z.z");
    assert_eq!(u.name, "name");
}

#[test]
fn new_user_defaults() {
    let command = UserCreateCommand {
        name: "n".to_string(),
        email: "e@x.com".to_string(),
        hashed_password: "h".to_string(),
    };
    let now = Timestamp { secs: 77, nanos: 0 };
    let new_user = command.into_new_user(now);
    assert!(new_user.is_active);
    assert!(!new_user.is_admin);
    assert_eq!(new_user.created_dtm, now);
    assert_eq!(new_user.name, "n");
}
