//! The listing of the inventory, as the requester reads it.

use crate::date::{formatted, lettered_pattern};
use crate::i18n::{lookup, missing_text, I18n, TranslationView};
use crate::models::{medicine_views, Medicine, MedicineView};
use crate::text::{decimal_text, push_decimal, push_str, string_of};
use vstd::prelude::*;

verus! {

/// The lines of one medicine in a listing: after the `marker`, its name,
/// then its stock, then the day it expires with the month in letters.
pub open spec fn entry_text(marker: Seq<char>, medicine: MedicineView) -> Seq<char> {
    marker + " *"@ + medicine.name + "*\n   Stock: "@ + decimal_text(medicine.stock)
        + " units\n   Expires: "@ + formatted(medicine.expiry_date, lettered_pattern())
}

/// The entries of `medicines`, in their order, with an empty line between
/// one entry and the next.
pub open spec fn entries_text(marker: Seq<char>, medicines: Seq<MedicineView>) -> Seq<char>
    decreases medicines.len(),
{
    if medicines.len() == 0 {
        Seq::empty()
    } else if medicines.len() == 1 {
        entry_text(marker, medicines[0])
    } else {
        entries_text(marker, medicines.drop_last()) + "\n\n"@ + entry_text(
            marker,
            medicines.last(),
        )
    }
}

/// The listing with its fixed English heading, or the notice of an empty
/// inventory.
pub open spec fn listing_text(medicines: Seq<MedicineView>) -> Seq<char> {
    if medicines.len() == 0 {
        "No medicines found in the inventory"@
    } else {
        "*Available medicines:*\n\n"@ + entries_text("\u{1f3e5}"@, medicines)
    }
}

/// The text under `key` in the language `lang`, or the notice that it is
/// missing.
pub open spec fn text_of(texts: Seq<TranslationView>, lang: Seq<char>, key: Seq<char>) -> Seq<
    char,
> {
    match lookup(texts, lang, key) {
        Some(found) => found,
        None => missing_text(key),
    }
}

/// The listing with its heading in the language `lang`, or the notice of an
/// empty inventory in that language.
pub open spec fn localized_listing_text(
    medicines: Seq<MedicineView>,
    texts: Seq<TranslationView>,
    lang: Seq<char>,
) -> Seq<char> {
    if medicines.len() == 0 {
        text_of(texts, lang, "no_medicines"@)
    } else {
        text_of(texts, lang, "inventory"@) + ":\n\n"@ + entries_text(
            "\u{f8ff}\u{fc}\u{e8}\u{2022}"@,
            medicines,
        )
    }
}

fn push_entry(out: &mut Vec<char>, marker: &str, medicine: &Medicine)
    ensures
        final(out)@ == old(out)@ + entry_text(marker@, medicine@),
{
    let expires = medicine.expiry_date.lettered();
    push_str(out, marker);
    push_str(out, " *");
    push_str(out, medicine.name.as_str());
    push_str(out, "*\n   Stock: ");
    push_decimal(out, medicine.stock);
    push_str(out, " units\n   Expires: ");
    push_str(out, expires.as_str());
    assert(out@ =~= old(out)@ + entry_text(marker@, medicine@));
}

fn push_entries(out: &mut Vec<char>, marker: &str, medicines: &Vec<Medicine>)
    ensures
        final(out)@ == old(out)@ + entries_text(marker@, medicine_views(medicines@)),
{
    let ghost all = medicine_views(medicines@);
    let mut i: usize = 0;
    assert(entries_text(marker@, all.subrange(0, 0)) =~= Seq::<char>::empty());
    while i < medicines.len()
        invariant
            i <= medicines.len(),
            all == medicine_views(medicines@),
            out@ == old(out)@ + entries_text(marker@, all.subrange(0, i as int)),
        decreases medicines.len() - i,
    {
        let ghost before = out@;
        if i > 0 {
            push_str(out, "\n\n");
        }
        push_entry(out, marker, &medicines[i]);
        proof {
            let prefix = all.subrange(0, i + 1);
            assert(prefix.drop_last() =~= all.subrange(0, i as int));
            assert(prefix.last() == medicines@[i as int]@);
            if i == 0 {
                assert(prefix[0] == medicines@[0]@);
                assert(out@ =~= old(out)@ + entries_text(marker@, prefix));
            } else {
                assert(out@ =~= old(out)@ + entries_text(marker@, prefix));
            }
        }
        i = i + 1;
    }
    assert(all.subrange(0, medicines.len() as int) =~= all);
}

/// Lists `medicines` under the fixed English heading. Where there is none,
/// the text says so.
pub fn list_inventroy(medicines: &Vec<Medicine>) -> (out: String)
    ensures
        out@ == listing_text(medicine_views(medicines@)),
{
    if medicines.len() == 0 {
        return "No medicines found in the inventory".to_owned();
    }
    let mut text: Vec<char> = Vec::new();
    push_str(&mut text, "*Available medicines:*\n\n");
    push_entries(&mut text, "\u{1f3e5}", medicines);
    assert(text@ =~= listing_text(medicine_views(medicines@)));
    string_of(&text)
}

/// Lists `medicines` under the heading of the language `lang`. Where there
/// is none, the text says so in that language.
pub fn list_inventory(medicines: &Vec<Medicine>, texts: &I18n, lang: &str) -> (out: String)
    ensures
        out@ == localized_listing_text(medicine_views(medicines@), texts@, lang@),
{
    if medicines.len() == 0 {
        return texts.get(lang, "no_medicines");
    }
    let heading = texts.get(lang, "inventory");
    let mut text: Vec<char> = Vec::new();
    push_str(&mut text, heading.as_str());
    push_str(&mut text, ":\n\n");
    push_entries(&mut text, "\u{f8ff}\u{fc}\u{e8}\u{2022}", medicines);
    assert(text@ =~= localized_listing_text(medicine_views(medicines@), texts@, lang@));
    string_of(&text)
}

} // verus!
