use base64::Engine;
use lexichat::auth::{
    verify_collection_ownership, verify_collection_read_access, verify_flashcard_ownership,
};
use lexichat::cache_key::{
    definition_search_cache_patterns, generate_search_cache_key,
    generate_semantic_search_cache_key, recent_changes_cache_pattern, SearchDefinitionsQuery,
};
use lexichat::error::{handle_error, handle_import_error, AppError};
use lexichat::notify::{notification_subject, EmailNotification};
use lexichat::numfmt::{i64_to_string, u64_to_string};
use lexichat::sanitize::{remove_html_tags, validate_item_image, ImageData};

#[test]
fn decimal_rendering_is_exact() {
    assert_eq!(u64_to_string(0), "0");
    assert_eq!(u64_to_string(12345), "12345");
    assert_eq!(u64_to_string(u64::MAX), "18446744073709551615");
    assert_eq!(i64_to_string(-5), "-5");
    assert_eq!(i64_to_string(0), "0");
    assert_eq!(i64_to_string(i64::MIN), "-9223372036854775808");
}

#[test]
fn error_messages_and_status_codes() {
    let e = AppError::Validation("bad input".to_string());
    assert_eq!(e.status_code(), 400);
    assert_eq!(e.message(), "Validation error: bad input");
    assert_eq!(
        e.error_body(),
        "{\"error\":\"Validation error: bad input\",\"message\":\"Validation error: bad input\"}"
    );

    let e = AppError::Auth("denied".to_string());
    assert_eq!(e.status_code(), 403);
    let e = AppError::NotFound("gone".to_string());
    assert_eq!(e.status_code(), 404);
    let e = AppError::Unauthorized("who".to_string());
    assert_eq!(e.status_code(), 401);
    let e = AppError::Internal("boom".to_string());
    assert_eq!(e.status_code(), 500);
    assert_eq!(e.message(), "Internal error: boom");
}

#[test]
fn raw_carrying_errors_expose_the_upstream_body() {
    let e = AppError::ExternalServiceRetryable {
        message: "upstream".to_string(),
        raw_response: "a \"raw\" body".to_string(),
    };
    assert_eq!(e.status_code(), 500);
    assert_eq!(e.message(), "External service error (retryable): upstream");
    assert_eq!(
        e.error_body(),
        "{\"error\":\"External service error (retryable): upstream\",\
         \"message\":\"External service error (retryable): upstream\",\
         \"raw_response\":\"a \\\"raw\\\" body\"}"
    );
}

#[test]
fn error_text_classification() {
    assert!(matches!(
        handle_error("item not found", "ctx"),
        AppError::NotFound(m) if m == "item not found"
    ));
    assert!(matches!(
        handle_error("access denied for you", "ctx"),
        AppError::Auth(_)
    ));
    assert!(matches!(handle_error("Forbidden", "ctx"), AppError::Auth(_)));
    assert!(matches!(
        handle_error("Invalid image", "ctx"),
        AppError::Validation(_)
    ));
    assert!(matches!(
        handle_error("Validation exploded", "ctx"),
        AppError::Validation(_)
    ));
    assert!(matches!(
        handle_error("boom", "Import failed"),
        AppError::Internal(m) if m == "Import failed: boom"
    ));
    assert!(matches!(
        handle_import_error("boom"),
        AppError::Internal(m) if m == "Import failed: boom"
    ));
}

#[test]
fn default_search_cache_key() {
    let q = SearchDefinitionsQuery {
        page: None,
        per_page: None,
        search: None,
        sort_by: None,
        sort_order: None,
        include_comments: None,
        languages: None,
        selmaho: None,
        word_type: None,
        username: None,
        source_langid: None,
    };
    assert_eq!(generate_search_cache_key(&q, false), "search:1:20::word:asc:false:::0::1");
    assert_eq!(generate_search_cache_key(&q, true), "fast_search:1:20::word:asc:false:::0::1");
    assert_eq!(generate_semantic_search_cache_key(&q), "semantic_search::1:20::::0:1");
}

#[test]
fn filled_search_cache_key() {
    let q = SearchDefinitionsQuery {
        page: Some(3),
        per_page: Some(5),
        search: Some("cat".to_string()),
        sort_by: Some("score".to_string()),
        sort_order: Some("desc".to_string()),
        include_comments: Some(true),
        languages: Some("2,3".to_string()),
        selmaho: Some("KOhA".to_string()),
        word_type: Some(7),
        username: Some("alice".to_string()),
        source_langid: Some(2),
    };
    assert_eq!(
        generate_search_cache_key(&q, false),
        "search:3:5:cat:score:desc:true:2,3:KOhA:7:alice:2"
    );
    assert_eq!(
        generate_semantic_search_cache_key(&q),
        "semantic_search:cat:3:5:2,3:KOhA:alice:7:2"
    );
}

#[test]
fn cache_patterns_cover_all_search_paths() {
    let patterns = definition_search_cache_patterns();
    assert_eq!(patterns, vec!["search:*", "fast_search:*", "semantic_search:*"]);
    assert_eq!(recent_changes_cache_pattern(), "recent_changes:*");
}

#[test]
fn html_tags_are_removed() {
    assert_eq!(remove_html_tags("<b>bold</b> text"), "bold text");
    assert_eq!(remove_html_tags("no tags"), "no tags");
    assert_eq!(remove_html_tags("<script>alert(1)</script>x"), "alert(1)x");
}

fn image(mime: &str, data: &str) -> ImageData {
    ImageData { mime_type: mime.to_string(), data: data.to_string() }
}

#[test]
fn image_validation_accepts_small_known_types() {
    let data = base64::engine::general_purpose::STANDARD.encode([1u8, 2, 3]);
    assert_eq!(validate_item_image(&image("image/png", &data)), Ok(()));
    assert_eq!(validate_item_image(&image("image/jpeg", &data)), Ok(()));
    assert_eq!(validate_item_image(&image("image/gif", &data)), Ok(()));
    assert_eq!(validate_item_image(&image("image/webp", &data)), Ok(()));
}

#[test]
fn image_validation_rejects_unknown_type() {
    let data = base64::engine::general_purpose::STANDARD.encode([1u8]);
    assert_eq!(
        validate_item_image(&image("image/tiff", &data)),
        Err("Invalid image type. Supported types: JPEG, PNG, GIF, WebP".to_string())
    );
}

#[test]
fn image_validation_rejects_bad_base64() {
    assert_eq!(
        validate_item_image(&image("image/png", "!!!not base64!!!")),
        Err("Invalid base64 data".to_string())
    );
}

#[test]
fn image_validation_rejects_oversized_data() {
    let big = vec![0u8; 5 * 1024 * 1024 + 1];
    let data = base64::engine::general_purpose::STANDARD.encode(&big);
    assert_eq!(
        validate_item_image(&image("image/png", &data)),
        Err("Image size exceeds 5MB limit".to_string())
    );
}

#[test]
fn collection_access_decisions() {
    assert!(verify_collection_read_access(7, true, None).is_ok());
    assert!(verify_collection_read_access(7, false, None).is_err());
    assert!(verify_collection_read_access(7, false, Some(7)).is_ok());
    assert!(verify_collection_read_access(7, false, Some(8)).is_err());
    assert!(verify_collection_read_access(7, true, Some(8)).is_ok());

    assert!(verify_collection_ownership(7, 7).is_ok());
    assert!(matches!(
        verify_collection_ownership(7, 8),
        Err(AppError::Auth(m)) if m == "Access Denied: Collection does not belong to user"
    ));
    assert!(verify_flashcard_ownership(3, 3).is_ok());
    assert!(matches!(
        verify_flashcard_ownership(3, 4),
        Err(AppError::Auth(m)) if m == "Access Denied: Flashcard does not belong to user"
    ));
}

#[test]
fn notification_subjects() {
    assert_eq!(
        notification_subject("edit", Some("mlatu")),
        "Lojban Dictionary: Definition updated - mlatu"
    );
    assert_eq!(notification_subject("edit", None), "Lojban Dictionary: Definition updated");
    assert_eq!(
        notification_subject("comment", Some("mlatu")),
        "Lojban Dictionary: comment - mlatu"
    );
    assert_eq!(notification_subject("comment", None), "Lojban Dictionary: comment");
}

#[test]
fn email_notification_holds_its_fields() {
    let n = EmailNotification {
        to_email: "a@b.c".to_string(),
        subject: "s".to_string(),
        text_body: "t".to_string(),
        html_body: "<p>t</p>".to_string(),
    };
    assert_eq!(n.to_email, "a@b.c");
    assert_eq!(n.html_body, "<p>t</p>");
}
