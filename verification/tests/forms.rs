use leitsys::api::Category;
use leitsys::forms::{
    category_choice, chosen_id, due_date_label, find_category, passwords_match, required_text,
    spacing_days,
};
use leitsys::password::{is_special_char, password_checks, PasswordChecks};
use leitsys::text::trimmed;

fn category(id: i64, title: &str) -> Category {
    Category { id, title: title.to_string(), color_code: "#3498db".to_string() }
}

#[test]
fn required_fields_are_trimmed() {
    assert_eq!(required_text("  Capital of France \n"), Some("Capital of France".to_string()));
    assert_eq!(required_text(" \t\u{3000} "), None);
    assert_eq!(required_text(""), None);
    assert_eq!(trimmed("\u{a0}x y\u{2003}"), "x y");
}

#[test]
fn spacing_days_must_be_a_positive_integer() {
    assert_eq!(spacing_days(" 3 "), Some(3));
    assert_eq!(spacing_days("+7"), Some(7));
    assert_eq!(spacing_days("0"), None);
    assert_eq!(spacing_days("-2"), None);
    assert_eq!(spacing_days("1.5"), None);
    assert_eq!(spacing_days(""), None);
    assert_eq!(spacing_days("9223372036854775807"), Some(i64::MAX));
    assert_eq!(spacing_days("9223372036854775808"), None);
}

#[test]
fn chosen_ids_read_as_integers() {
    assert_eq!(chosen_id("12"), Some(12));
    assert_eq!(chosen_id("-9223372036854775808"), Some(i64::MIN));
    assert_eq!(chosen_id(" 12"), None);
    assert_eq!(chosen_id("abc"), None);
}

#[test]
fn password_confirmation_must_match() {
    assert!(passwords_match(&"Secret1!".to_string(), &"Secret1!".to_string()));
    assert!(!passwords_match(&"Secret1!".to_string(), &"secret1!".to_string()));
}

#[test]
fn categories_are_found_by_id() {
    let cats = vec![category(4, "Maths"), category(9, "History"), category(4, "Copy")];
    assert_eq!(find_category(&cats, 4), Some(0));
    assert_eq!(find_category(&cats, 9), Some(1));
    assert_eq!(find_category(&cats, 5), None);
    assert_eq!(category_choice(None, &cats), Some(4));
    assert_eq!(category_choice(Some(9), &cats), Some(9));
    assert_eq!(category_choice(None, &vec![]), None);
}

#[test]
fn due_date_labels_keep_the_date_part() {
    assert_eq!(due_date_label("2026-09-17T10:00:00Z"), "2026-09-17");
    assert_eq!(due_date_label("2026-09"), "2026-09");
    assert_eq!(due_date_label("2026-09-1é"), "2026-09-1é");
    assert_eq!(due_date_label("2026-09-é1"), "2026-09-é");
}

#[test]
fn password_rules_report_each_requirement() {
    assert_eq!(
        password_checks("Abcdefgh1!"),
        PasswordChecks { long_enough: true, has_lower: true, has_upper: true, has_digit: true, has_special: true }
    );
    assert!(password_checks("Abcdefgh1!").all_met());
    let weak = password_checks("abc");
    assert!(!weak.long_enough && weak.has_lower && !weak.has_upper && !weak.has_digit && !weak.has_special);
    // 10 to 72 characters, whatever their byte length.
    assert!(password_checks(&"a".repeat(72)).long_enough);
    assert!(!password_checks(&"a".repeat(73)).long_enough);
    assert!(!password_checks(&"a".repeat(9)).long_enough);
    assert!(password_checks(&"a".repeat(10)).long_enough);
    assert!(password_checks(&format!("A1!{}", "é".repeat(40))).long_enough);
    assert!(password_checks(&"é".repeat(72)).long_enough);
    assert!(!password_checks(&"é".repeat(73)).long_enough);
    assert!(password_checks("ÉCOLE").has_upper);
    assert!(password_checks("ß").has_lower);
    assert!(!password_checks("٣").has_digit);
}

#[test]
fn special_characters_are_the_fixed_set() {
    for c in "!@#$%^&*()_+-=[]{}|;:,.<>?/~`\"'\\".chars() {
        assert!(is_special_char(c));
    }
    assert!(!is_special_char('a'));
    assert!(!is_special_char(' '));
    assert!(!is_special_char('€'));
}
