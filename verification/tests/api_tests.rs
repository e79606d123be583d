use guessing_game::api::{ask_path, classify_response, new_game_path, state_path, ApiError, ApiOp};

#[test]
fn status_200_yields_body_unchanged() {
    let r = classify_response(ApiOp::FetchState, 200, String::from("state-xyz"));
    assert_eq!(r, Ok(String::from("state-xyz")));
}

#[test]
fn status_404_yields_status_error_with_code_and_op() {
    let r = classify_response(ApiOp::CreateSession, 404, String::from("not found"));
    assert_eq!(r, Err(ApiError::Status { code: 404, op: ApiOp::CreateSession }));
}

#[test]
fn status_500_on_ask_names_the_ask_operation() {
    let r = classify_response(ApiOp::Ask, 500, String::new());
    assert_eq!(r, Err(ApiError::Status { code: 500, op: ApiOp::Ask }));
}

#[test]
fn transport_error_is_distinct_from_status_errors() {
    assert_ne!(ApiError::Transport, ApiError::Status { code: 200, op: ApiOp::Ask });
}

#[test]
fn new_game_path_is_fixed() {
    assert_eq!(new_game_path(), "/api/new_game");
}

#[test]
fn state_path_embeds_the_token() {
    assert_eq!(state_path("abc123"), "/api/game/abc123");
}

#[test]
fn ask_path_embeds_the_token() {
    assert_eq!(ask_path("abc123"), "/api/game/abc123/ask");
}
