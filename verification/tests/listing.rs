use pharmacy_bot::date::Date;
use pharmacy_bot::i18n::I18n;
use pharmacy_bot::inventory::{list_inventory, list_inventroy};
use pharmacy_bot::models::Medicine;
use pharmacy_bot::seed::{get_seed_data, seeded_pharmacy};
use pharmacy_bot::store::Pharmacy;

fn medicine(id: i64, name: &str, stock: i64, y: i32, m: u32, d: u32) -> Medicine {
    Medicine { id, name: name.to_string(), stock, expiry_date: Date::from_ymd_opt(y, m, d).unwrap() }
}

#[test]
fn the_bot_starts_with_texts_in_two_languages() {
    let texts = I18n::new();
    assert_eq!(texts.get("en", "welcome"), "Welcome to the pharmacy bot!");
    assert_eq!(texts.get("en", "inventory"), "Available medicines:");
    assert_eq!(texts.get("en", "no_medicines"), "No medicines found in the inventory");
    assert_eq!(texts.get("es", "welcome"), "\u{ac}\u{b0}Bienvenido al bot de farmacia!");
    assert_eq!(texts.get("es", "inventory"), "Medicamentos disponibles:");
    assert_eq!(
        texts.get("es", "no_medicines"),
        "No se encontraron medicamentos en el inventario"
    );
}

#[test]
fn a_text_that_is_missing_is_named() {
    let texts = I18n::new();
    assert_eq!(texts.get("en", "farewell"), "Missing translation: farewell");
    assert_eq!(texts.get("de", "welcome"), "Missing translation: welcome");
    assert_eq!(texts.get("", ""), "Missing translation: ");
    assert_eq!(texts.get("EN", "welcome"), "Missing translation: welcome");
}

#[test]
fn an_empty_inventory_is_said_to_be_empty() {
    let texts = I18n::new();
    assert_eq!(list_inventroy(&vec![]), "No medicines found in the inventory");
    assert_eq!(list_inventory(&vec![], &texts, "en"), "No medicines found in the inventory");
    assert_eq!(
        list_inventory(&vec![], &texts, "es"),
        "No se encontraron medicamentos en el inventario"
    );
    assert_eq!(list_inventory(&vec![], &texts, "fr"), "Missing translation: no_medicines");
}

#[test]
fn the_listing_has_one_entry_for_each_medicine() {
    let medicines =
        vec![medicine(1, "Aspirin", 500, 2025, 6, 30), medicine(2, "Amoxicillin", 0, 2024, 12, 1)];
    assert_eq!(
        list_inventroy(&medicines),
        "*Available medicines:*\n\n\u{1f3e5} *Aspirin*\n   Stock: 500 units\n   Expires: 30 Jun 2025\n\n\u{1f3e5} *Amoxicillin*\n   Stock: 0 units\n   Expires: 01 Dec 2024"
    );
    assert_eq!(
        list_inventroy(&medicines[..1].to_vec()),
        "*Available medicines:*\n\n\u{1f3e5} *Aspirin*\n   Stock: 500 units\n   Expires: 30 Jun 2025"
    );
}

#[test]
fn the_listing_has_its_heading_in_the_language_of_the_reader() {
    let texts = I18n::new();
    let medicines =
        vec![medicine(1, "Aspirin", 500, 2025, 6, 30), medicine(2, "Amoxicillin", 3, 2024, 12, 1)];
    let entries = "\u{f8ff}\u{fc}\u{e8}\u{2022} *Aspirin*\n   Stock: 500 units\n   Expires: 30 Jun 2025\n\n\u{f8ff}\u{fc}\u{e8}\u{2022} *Amoxicillin*\n   Stock: 3 units\n   Expires: 01 Dec 2024";
    assert_eq!(
        list_inventory(&medicines, &texts, "en"),
        format!("Available medicines::\n\n{}", entries)
    );
    assert_eq!(
        list_inventory(&medicines, &texts, "es"),
        format!("Medicamentos disponibles::\n\n{}", entries)
    );
    assert_eq!(
        list_inventory(&medicines, &texts, "it"),
        format!("Missing translation: inventory:\n\n{}", entries)
    );
}

#[test]
fn the_seed_has_ten_medicines_and_ten_orders() {
    let (medicines, orders) = get_seed_data();
    assert_eq!(medicines.len(), 10);
    assert_eq!(orders.len(), 10);
    let first = &medicines[0];
    assert_eq!((first.id, first.name.as_str(), first.stock), (1, "Aspirin", 500));
    assert_eq!(first.expiry_date, Date::from_ymd_opt(2025, 6, 30).unwrap());
    let last = &medicines[9];
    assert_eq!((last.id, last.name.as_str(), last.stock), (10, "Metoprolol", 275));
    assert_eq!(last.expiry_date, Date::from_ymd_opt(2024, 10, 31).unwrap());
    let names: Vec<&str> = medicines.iter().map(|m| m.name.as_str()).collect();
    assert_eq!(
        names,
        vec![
            "Aspirin",
            "Amoxicillin",
            "Lisinopril",
            "Levothyroxine",
            "Metformin",
            "Amlodipine",
            "Omeprazole",
            "Albuterol",
            "Gabapentin",
            "Metoprolol"
        ]
    );
    let stocks: Vec<i64> = medicines.iter().map(|m| m.stock).collect();
    assert_eq!(stocks, vec![500, 300, 400, 250, 350, 200, 450, 150, 300, 275]);
    let o = &orders[2];
    assert_eq!(
        (o.id, o.user_id.as_str(), o.medicine_id, o.quantity, o.status.as_str()),
        (3, "customer789", 2, 3, "Processed")
    );
    assert_eq!(o.created_at, Date::from_ymd_opt(2023, 6, 10).unwrap());
    let refs: Vec<i64> = orders.iter().map(|o| o.medicine_id).collect();
    assert_eq!(refs, vec![1, 3, 2, 5, 7, 4, 6, 8, 9, 10]);
    assert!(Pharmacy::from_rows(&medicines, &orders).is_some());
}

#[test]
fn the_seed_can_be_ordered_from() {
    let mut p = seeded_pharmacy();
    assert_eq!(p.medicines().len(), 10);
    assert_eq!(p.orders().len(), 10);
    let placed = p
        .place_order(
            "user123",
            &pharmacy_bot::selector::MedicineSelector::Name("aspirin".to_string()),
            2,
            Date::from_ymd_opt(2024, 1, 1).unwrap(),
        )
        .unwrap();
    assert_eq!(placed.order_id, 11);
    assert_eq!(p.medicines()[0].stock, 498);
}
