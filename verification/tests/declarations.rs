use latex_references::text::same_text;
use latex_references::{declare, Citation, CitationType, DeclarationError};

const ONE: Citation = Citation {
    key: "key1",
    citation_type: CitationType::Article,
    title: "title1",
    author: "author1",
    year: "year1",
};

const TWO: Citation = Citation {
    key: "key2",
    citation_type: CitationType::Article,
    title: "title2",
    author: "author2",
    year: "year2",
};

#[test]
fn declare_gives_each_citation_under_its_name() {
    let declared = declare(&[("CITATION1", ONE), ("CITATION2", TWO)]).unwrap();
    assert_eq!(declared.get("CITATION1").unwrap().key, "key1");
    assert_eq!(declared.get("CITATION1").unwrap().author, "author1");
    assert_eq!(declared.get("CITATION2").unwrap().key, "key2");
    assert_eq!(declared.get("CITATION2").unwrap().title, "title2");
}

#[test]
fn declare_knows_no_other_name() {
    let declared = declare(&[("CITATION1", ONE), ("CITATION2", TWO)]).unwrap();
    assert!(declared.get("CITATION3").is_none());
    assert!(declared.get("citation1").is_none());
    assert!(declared.get("CITATION").is_none());
    assert!(declared.get("key1").is_none());
    assert!(declared.get("").is_none());
}

#[test]
fn declare_gives_one_bibliography_in_declaration_order() {
    let declared = declare(&[("CITATION1", ONE), ("CITATION2", TWO)]).unwrap();
    let bibliography = declared.bibliography();
    assert_eq!(bibliography.0.len(), 2);
    assert_eq!(bibliography.0[0].key, "key1");
    assert_eq!(bibliography.0[1].key, "key2");
    assert_eq!(
        bibliography.to_string(),
        "@article{key1,\nauthor={author1},\ntitle={title1},\nyear={year1}\n}\n@article{key2,\nauthor={author2},\ntitle={title2},\nyear={year2}\n}\n"
    );
}

#[test]
fn declare_does_not_sort() {
    let z_first = declare(&[("Z", TWO), ("A", ONE)]).unwrap();
    let a_first = declare(&[("A", ONE), ("Z", TWO)]).unwrap();
    assert_eq!(
        z_first.bibliography().to_string(),
        format!("{}\n{}\n", TWO.to_bib_entry(), ONE.to_bib_entry())
    );
    assert_eq!(
        a_first.bibliography().to_string(),
        format!("{}\n{}\n", ONE.to_bib_entry(), TWO.to_bib_entry())
    );
}

#[test]
fn declare_nothing() {
    let none: [(&str, Citation); 0] = [];
    let declared = declare(&none).unwrap();
    assert!(declared.get("CITATION1").is_none());
    assert_eq!(declared.bibliography().0.len(), 0);
    assert_eq!(declared.bibliography().to_string(), "");
}

#[test]
fn declare_refuses_a_name_declared_twice() {
    let result = declare(&[("CITATION1", ONE), ("CITATION1", TWO)]);
    assert_eq!(
        result.err(),
        Some(DeclarationError::DuplicateName {
            first: 0,
            second: 1
        })
    );
}

#[test]
fn declare_reports_the_first_repeated_name() {
    let result = declare(&[
        ("a", ONE),
        ("b", TWO),
        ("c", ONE),
        ("b", ONE),
        ("a", TWO),
        ("a", ONE),
    ]);
    assert_eq!(
        result.err(),
        Some(DeclarationError::DuplicateName {
            first: 1,
            second: 3
        })
    );
}

#[test]
fn declare_reports_the_first_of_three_equal_names() {
    let result = declare(&[("x", ONE), ("n", ONE), ("n", TWO), ("n", ONE)]);
    assert_eq!(
        result.err(),
        Some(DeclarationError::DuplicateName {
            first: 1,
            second: 2
        })
    );
}

#[test]
fn declare_compares_names_exactly() {
    assert!(declare(&[("name", ONE), ("Name", TWO), ("name ", ONE), ("nam", TWO)]).is_ok());
    assert!(declare(&[("é", ONE), ("e", TWO), ("è", ONE)]).is_ok());
    assert!(declare(&[("é", ONE), ("e", TWO), ("é", ONE)]).is_err());
}

#[test]
fn declare_does_not_compare_keys() {
    let declared = declare(&[("first", ONE), ("second", ONE)]).unwrap();
    assert_eq!(declared.get("first").unwrap().key, "key1");
    assert_eq!(declared.get("second").unwrap().key, "key1");
    assert_eq!(
        declared.bibliography().to_string(),
        format!("{}\n{}\n", ONE.to_bib_entry(), ONE.to_bib_entry())
    );
}

#[test]
fn same_text_on_equal_strings() {
    assert!(same_text("", ""));
    assert!(same_text("CITATION1", "CITATION1"));
    assert!(same_text("Gödel", "Gödel"));
    let built = format!("{}{}", "CITA", "TION1");
    assert!(same_text(&built, "CITATION1"));
}

#[test]
fn same_text_on_different_strings() {
    assert!(!same_text("", "a"));
    assert!(!same_text("a", ""));
    assert!(!same_text("CITATION1", "CITATION2"));
    assert!(!same_text("CITATION1", "CITATION"));
    assert!(!same_text("XITATION1", "CITATION1"));
    assert!(!same_text("Gödel", "Godel"));
    assert!(!same_text("a", "A"));
}
