use backend::error::AppError;

fn all() -> Vec<AppError> {
    vec![
        AppError::NotFound("Game not found".to_string()),
        AppError::BadRequest("Not your turn".to_string()),
        AppError::Unauthorized("Invalid secret".to_string()),
        AppError::Conflict("Game already has two players".to_string()),
        AppError::Database("connection reset".to_string()),
        AppError::Internal("Failed to generate black secret".to_string()),
    ]
}

#[test]
fn full_text_names_the_kind() {
    let texts: Vec<String> = all().iter().map(|e| e.to_string()).collect();
    assert_eq!(
        texts,
        vec![
            "Not found: Game not found",
            "Bad request: Not your turn",
            "Unauthorized: Invalid secret",
            "Conflict: Game already has two players",
            "Database error: connection reset",
            "Internal error: Failed to generate black secret",
        ]
    );
}

#[test]
fn each_kind_has_its_status() {
    let codes: Vec<u16> = all().iter().map(|e| e.status_code()).collect();
    assert_eq!(codes, vec![404, 400, 401, 409, 500, 500]);
}

#[test]
fn answer_carries_the_text_of_a_callers_fault() {
    assert_eq!(
        AppError::NotFound("Game not found".to_string()).into_response(),
        (404, "Game not found".to_string())
    );
    assert_eq!(
        AppError::BadRequest("Not your turn".to_string()).into_response(),
        (400, "Not your turn".to_string())
    );
    assert_eq!(
        AppError::Unauthorized("Invalid secret".to_string()).into_response(),
        (401, "Invalid secret".to_string())
    );
    assert_eq!(
        AppError::Conflict("Game already has two players".to_string()).into_response(),
        (409, "Game already has two players".to_string())
    );
}

#[test]
fn answer_hides_the_text_of_an_internal_fault() {
    assert_eq!(
        AppError::Database("password authentication failed".to_string()).into_response(),
        (500, "Internal server error".to_string())
    );
    assert_eq!(
        AppError::Internal("Failed to generate black secret".to_string()).into_response(),
        (500, "Internal server error".to_string())
    );
}

#[test]
fn detail_is_the_text_carried() {
    assert_eq!(AppError::Database("x".to_string()).detail(), "x");
    assert_eq!(AppError::Conflict(String::new()).detail(), "");
    assert_eq!(AppError::Conflict(String::new()).to_string(), "Conflict: ");
}

#[test]
fn viewers_are_sent_no_internal_text() {
    let texts: Vec<String> = all().iter().map(|e| e.published_message()).collect();
    assert_eq!(
        texts,
        vec![
            "Not found: Game not found",
            "Bad request: Not your turn",
            "Unauthorized: Invalid secret",
            "Conflict: Game already has two players",
            "Internal server error",
            "Internal server error",
        ]
    );
}
