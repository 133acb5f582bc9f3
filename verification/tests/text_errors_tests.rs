use case_api::clamp_time;
use case_api::errors::{email_conflict_message, invalid_credentials_message, method_message,
    not_found_message, status_label, status_of, title_conflict_message, ApiError};
use case_api::ext::current_time;
use case_api::model::{filter_user_record, User};
use case_api::text::{str_lt, to_lower_ascii, to_upper_ascii};

#[test]
fn ascii_case_folding_touches_only_ascii_letters() {
    assert_eq!(to_upper_ascii("pOsT"), "POST");
    assert_eq!(to_upper_ascii("get-2!"), "GET-2!");
    assert_eq!(to_lower_ascii("Alice@EXAMPLE.com"), "alice@example.com");
    assert_eq!(to_upper_ascii(""), "");
    assert_eq!(to_lower_ascii("Ab\u{c4}"), "ab\u{c4}");
}

#[test]
fn lexicographic_order_on_strings() {
    assert!(str_lt("abc", "abd"));
    assert!(str_lt("ab", "abc"));
    assert!(!str_lt("abc", "abc"));
    assert!(!str_lt("b", "abc"));
    assert!(str_lt("", "a"));
}

#[test]
fn every_failure_has_its_status_code_and_label() {
    assert_eq!(status_of(&ApiError::NotFound), 404);
    assert_eq!(status_of(&ApiError::Conflict), 409);
    assert_eq!(status_of(&ApiError::Unauthorized), 401);
    assert_eq!(status_of(&ApiError::InvalidCredentials), 400);
    assert_eq!(status_of(&ApiError::MethodNotSupported("PUT".to_string())), 405);
    assert_eq!(status_of(&ApiError::DispatchFailed("dns".to_string())), 500);
    assert_eq!(status_of(&ApiError::StorageError), 500);
    assert_eq!(status_label(&ApiError::NotFound), "fail");
    assert_eq!(status_label(&ApiError::InvalidCredentials), "fail");
    assert_eq!(status_label(&ApiError::MethodNotSupported("PUT".to_string())), "error");
    assert_eq!(status_label(&ApiError::DispatchFailed("dns".to_string())), "error");
}

#[test]
fn failure_messages_name_their_subject() {
    assert_eq!(not_found_message("abc-1"), "Case with ID: abc-1 not found");
    assert_eq!(method_message("PUT"), "Method: PUT is not supported");
    assert_eq!(invalid_credentials_message(), "Invalid email or password");
    assert_eq!(email_conflict_message(), "User with that email already exists");
    assert_eq!(title_conflict_message(), "Case with that title already exists");
}

#[test]
fn clamping_keeps_nonnegative_seconds() {
    assert_eq!(clamp_time(-5), 0);
    assert_eq!(clamp_time(0), 0);
    assert_eq!(clamp_time(7), 7);
}

#[test]
fn the_clock_reads_a_present_day_time() {
    let t = current_time();
    assert!(t > 1_600_000_000);
}

#[test]
fn filtering_a_user_drops_the_password_hash() {
    let u = User {
        id: "id-1".to_string(),
        name: "Alice".to_string(),
        email: "alice@example.com".to_string(),
        password: "$argon2id$secret".to_string(),
        role: "user".to_string(),
        photo: "default.png".to_string(),
        verified: true,
        created_at: 5,
        updated_at: 6,
    };
    let f = filter_user_record(&u);
    assert_eq!(f.id, "id-1");
    assert_eq!(f.name, "Alice");
    assert_eq!(f.email, "alice@example.com");
    assert_eq!(f.role, "user");
    assert_eq!(f.photo, "default.png");
    assert!(f.verified);
    assert_eq!(f.createdAt, 5);
    assert_eq!(f.updatedAt, 6);
}
