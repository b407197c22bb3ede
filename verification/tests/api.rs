use leitsys::api::{
    claims_payload, data_reply, done_reply, list_reply, message_reply, Endpoint, Method, ReplyKind,
    INVALID_RESPONSE,
};

#[test]
fn endpoint_urls_follow_the_backend_routes() {
    assert_eq!(Endpoint::Login.url(), "http://localhost:3000/auth/login");
    assert_eq!(Endpoint::GetUser(42).url(), "http://localhost:3000/users/42");
    assert_eq!(Endpoint::DeleteQuestion(-7).url(), "http://localhost:3000/questions/-7");
    assert_eq!(
        Endpoint::GetMyQuestions { user_id: 3, archived: false, due_only: true }.url(),
        "http://localhost:3000/questions/user/3?is_archived=false&status=todo"
    );
    assert_eq!(
        Endpoint::GetMyQuestions { user_id: 3, archived: true, due_only: false }.url(),
        "http://localhost:3000/questions/user/3?is_archived=true"
    );
    assert_eq!(Endpoint::MarkAnswerCorrect(9).url(), "http://localhost:3000/answers/9/correct");
    assert_eq!(Endpoint::MarkAnswerIncorrect(9).url(), "http://localhost:3000/answers/9/error");
    assert_eq!(
        Endpoint::GetMySteps(i64::MIN).url(),
        "http://localhost:3000/steps/user/-9223372036854775808"
    );
    assert_eq!(Endpoint::GetMyCategories(0).url(), "http://localhost:3000/categories/user/0");
}

#[test]
fn endpoint_methods_and_tokens() {
    assert_eq!(Endpoint::Login.method(), Method::Post);
    assert!(!Endpoint::Login.needs_token());
    assert_eq!(Endpoint::UpdateStep(1).method(), Method::Put);
    assert_eq!(Endpoint::MarkAnswerCorrect(1).method(), Method::Patch);
    assert_eq!(Endpoint::DeleteUser(1).method(), Method::Delete);
    assert!(Endpoint::DeleteUser(1).needs_token());
    assert_eq!(Endpoint::GetMySteps(1).reply_kind(), ReplyKind::List);
    assert_eq!(Endpoint::Logout.reply_kind(), ReplyKind::Done);
}

#[test]
fn message_replies_fall_back_to_the_defaults() {
    assert_eq!(
        message_reply(&Endpoint::Register, true, None),
        Ok("Account created successfully.".to_string())
    );
    assert_eq!(
        message_reply(&Endpoint::Register, true, Some("Welcome".to_string())),
        Ok("Welcome".to_string())
    );
    assert_eq!(
        message_reply(&Endpoint::DeleteStep(1), false, None),
        Err("Unable to delete the step".to_string())
    );
    assert_eq!(
        message_reply(&Endpoint::MarkAnswerIncorrect(1), true, None),
        Ok("Incorrect answer. Question reset to the first step.".to_string())
    );
}

#[test]
fn data_replies_need_their_data() {
    assert_eq!(data_reply(&Endpoint::Login, true, Some("tok".to_string()), None), Ok("tok".to_string()));
    assert_eq!(data_reply::<String>(&Endpoint::Login, true, None, None), Err(INVALID_RESPONSE.to_string()));
    assert_eq!(data_reply::<String>(&Endpoint::Login, false, None, None), Err("Invalid credentials".to_string()));
    assert_eq!(
        data_reply::<i64>(&Endpoint::CreateAnswer, false, Some(3), Some("nope".to_string())),
        Err("nope".to_string())
    );
    assert_eq!(list_reply::<i64>(&Endpoint::GetMySteps(1), true, None, None), Ok(vec![]));
    assert_eq!(list_reply(&Endpoint::GetMySteps(1), true, Some(vec![1, 2]), None), Ok(vec![1, 2]));
    assert_eq!(
        list_reply::<i64>(&Endpoint::GetMyCategories(1), false, None, None),
        Err("Unable to fetch categories".to_string())
    );
    assert_eq!(done_reply(&Endpoint::Logout, true, None), Ok(()));
    assert_eq!(done_reply(&Endpoint::Logout, false, None), Err("Unable to log out".to_string()));
}

#[test]
fn claims_payload_decodes_the_middle_segment() {
    let token = "eyJhbGciOiJIUzI1NiJ9.eyJ1c2VyX2lkIjo3LCJ1c2VybmFtZSI6ImphbmUiLCJpc19hZG1pbiI6ZmFsc2V9.c2ln";
    let bytes = claims_payload(token).unwrap();
    assert_eq!(bytes, br#"{"user_id":7,"username":"jane","is_admin":false}"#.to_vec());
    let value: serde_json::Value = serde_json::from_slice(&bytes).unwrap();
    assert_eq!(value["user_id"], 7);
}

#[test]
fn claims_payload_rejects_malformed_tokens() {
    assert_eq!(claims_payload("no-dots-here"), None);
    assert_eq!(claims_payload("a.!!!.c"), None);
    // Padding is refused by the unpadded engine.
    assert_eq!(claims_payload("a.-_8=.c"), None);
    assert_eq!(claims_payload("a.-_8"), Some(vec![0xfb, 0xff]));
    assert_eq!(claims_payload("a."), Some(vec![]));
}
