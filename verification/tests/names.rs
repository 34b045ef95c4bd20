use order_records::naming::{file_name, AMC_EXT, AMR_EXT, AMY_EXT};
use order_records::record::Record;
use order_records::{Commission, Request, Timestamp, YCH};

fn slot(art: &str, slot: &str, customer: &str) -> YCH {
    YCH {
        id: "Y-1".to_string(),
        date: Timestamp::new(0, 0, 0).unwrap(),
        customer: customer.to_string(),
        reference: "ref".to_string(),
        art: art.to_string(),
        slot: slot.to_string(),
        contact: "contact".to_string(),
        price: "$10".to_string(),
        payment: "paypal".to_string(),
    }
}

#[test]
fn the_extensions_are_three_different_tags() {
    assert_eq!(AMY_EXT, "amy");
    assert_eq!(AMC_EXT, "amc");
    assert_eq!(AMR_EXT, "amr");
}

#[test]
fn parts_are_lowered_and_joined() {
    assert_eq!(file_name(&vec!["Dragon", "A1", "Jane"], "amy"), "dragon - a1 - jane.amy");
    assert_eq!(file_name(&vec!["Dragon", "Jane"], "amc"), "dragon - jane.amc");
}

#[test]
fn the_extension_is_taken_as_it_is() {
    assert_eq!(file_name(&vec!["Dragon"], "AMY"), "dragon.AMY");
}

#[test]
fn one_part_has_no_separator_and_no_part_leaves_the_extension() {
    assert_eq!(file_name(&vec!["Dragon"], "amr"), "dragon.amr");
    assert_eq!(file_name(&Vec::new(), "amr"), ".amr");
}

#[test]
fn empty_parts_keep_their_separators() {
    assert_eq!(file_name(&vec!["", "A1", ""], "amy"), " - a1 - .amy");
}

#[test]
fn casing_of_the_fields_does_not_show_in_the_name() {
    let plain = slot("Dragon", "b2", "Jane").file_name();
    assert_eq!(plain, "dragon - b2 - jane.amy");
    assert_eq!(slot("DRAGON", "B2", "JANE").file_name(), plain);
    assert_eq!(slot("dRaGoN", "b2", "jAnE").file_name(), plain);
    assert_eq!(slot("dragon", "b2", "jane").file_name(), plain);
}

#[test]
fn lowercase_follows_unicode() {
    assert_eq!(file_name(&vec!["ÉCOLE", "ÄÖÜ"], "amc"), "école - äöü.amc");
    assert_eq!(file_name(&vec!["ΟΔΟΣ"], "amr"), "οδος.amr");
    assert_eq!(file_name(&vec!["İ"], "amr"), "i\u{307}.amr");
    assert_eq!(file_name(&vec!["ß 123 _-/"], "amr"), "ß 123 _-/.amr");
}

#[test]
fn names_are_not_sanitized() {
    assert_eq!(slot("a/b", "..", "C:\\d").file_name(), "a/b - .. - c:\\d.amy");
}

#[test]
fn each_kind_names_its_file_after_its_own_fields() {
    let date = Timestamp::new(0, 0, 0).unwrap();
    let commission = Commission {
        id: "C-1".to_string(),
        date,
        art: "Portrait".to_string(),
        customer: "Bob".to_string(),
        contact: "bob@example.com".to_string(),
        price: "40 EUR".to_string(),
        payment: "crypto".to_string(),
        description: "Bust".to_string(),
    };
    let request = Request {
        id: "R-1".to_string(),
        date,
        customer: "Ann".to_string(),
        contact: "ann@example.com".to_string(),
        art: "Sketch".to_string(),
        description: "Pencil".to_string(),
    };
    assert_eq!(commission.file_name(), "portrait - bob.amc");
    assert_eq!(request.file_name(), "sketch - ann.amr");
    assert_eq!(slot("Portrait", "1", "Bob").file_name(), "portrait - 1 - bob.amy");
}

#[test]
fn kinds_with_the_same_fields_get_different_names() {
    let date = Timestamp::new(0, 0, 0).unwrap();
    let commission = Commission {
        id: "1".to_string(),
        date,
        art: "Sketch".to_string(),
        customer: "Ann".to_string(),
        contact: "".to_string(),
        price: "".to_string(),
        payment: "".to_string(),
        description: "".to_string(),
    };
    let request = Request {
        id: "1".to_string(),
        date,
        customer: "Ann".to_string(),
        contact: "".to_string(),
        art: "Sketch".to_string(),
        description: "".to_string(),
    };
    assert_eq!(commission.file_name(), "sketch - ann.amc");
    assert_eq!(request.file_name(), "sketch - ann.amr");
    assert_ne!(commission.file_name(), request.file_name());
    assert_ne!(slot("Sketch", "", "Ann").file_name(), request.file_name());
}
