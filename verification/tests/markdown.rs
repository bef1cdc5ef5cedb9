use pharmacy_bot::utils::{escape_markdown, format_date};
use pharmacy_bot::date::Date;

#[test]
fn escape_leaves_plain_text_alone() {
    assert_eq!(escape_markdown("Aspirin 500"), "Aspirin 500");
    assert_eq!(escape_markdown(""), "");
}

#[test]
fn escape_puts_a_backslash_before_each_reserved_character() {
    assert_eq!(escape_markdown("a.b"), "a\\.b");
    assert_eq!(
        escape_markdown("_*[]()~`>#+-=|{}.!"),
        "\\_\\*\\[\\]\\(\\)\\~\\`\\>\\#\\+\\-\\=\\|\\{\\}\\.\\!"
    );
    assert_eq!(escape_markdown("Co-codamol (30/500)"), "Co\\-codamol \\(30/500\\)");
}

#[test]
fn escape_keeps_every_character_of_the_payload() {
    let text = "Vitamin B-12 [1000 mcg] *new*!";
    let escaped = escape_markdown(text);
    let reserved = "_*[]()~`>#+-=|{}.!";
    let mut back = String::new();
    let chars: Vec<char> = escaped.chars().collect();
    let mut i = 0;
    while i < chars.len() {
        if chars[i] == '\\' && i + 1 < chars.len() && reserved.contains(chars[i + 1]) {
            back.push(chars[i + 1]);
            i += 2;
        } else {
            back.push(chars[i]);
            i += 1;
        }
    }
    assert_eq!(back, text);
    let count = text.chars().filter(|c| reserved.contains(*c)).count();
    assert_eq!(escaped.chars().count(), text.chars().count() + count);
}

#[test]
fn escape_leaves_a_backslash_and_other_scripts_alone() {
    assert_eq!(escape_markdown("a\\b"), "a\\b");
    assert_eq!(escape_markdown("Парацетамол 💊"), "Парацетамол 💊");
}

#[test]
fn format_date_writes_day_month_year() {
    assert_eq!(format_date(Date::from_ymd_opt(2025, 6, 30).unwrap()), "30-06-2025");
    assert_eq!(format_date(Date::from_ymd_opt(2024, 1, 5).unwrap()), "05-01-2024");
    assert_eq!(format_date(Date::from_ymd_opt(987, 12, 1).unwrap()), "01-12-0987");
}

#[test]
fn format_date_signs_years_outside_four_digits() {
    assert_eq!(format_date(Date::from_ymd_opt(0, 1, 1).unwrap()), "01-01-0000");
    assert_eq!(format_date(Date::from_ymd_opt(9999, 12, 31).unwrap()), "31-12-9999");
    assert_eq!(format_date(Date::from_ymd_opt(10000, 1, 1).unwrap()), "01-01-+10000");
    assert_eq!(format_date(Date::from_ymd_opt(-1, 3, 4).unwrap()), "04-03--0001");
    assert_eq!(format_date(Date::from_ymd_opt(-262143, 1, 1).unwrap()), "01-01--262143");
    assert_eq!(format_date(Date::from_ymd_opt(262142, 12, 31).unwrap()), "31-12-+262142");
}
