use ci_generate::error::Error;
use ci_generate::licensing::{define_license, license_body};

#[test]
fn empty_license_is_missing() {
    assert!(matches!(define_license(""), Err(Error::NoLicense)));
}

#[test]
fn unknown_license_is_invalid() {
    assert!(matches!(define_license("NOT-A-LICENSE"), Err(Error::InvalidLicense(_))));
    assert!(matches!(define_license("mit"), Err(Error::InvalidLicense(_))));
}

#[test]
fn known_licenses_are_found() {
    for id in ["MIT", "Apache-2.0", "GPL-3.0", "BSD-3-Clause", "BSD-1-Clause", "EUPL-1.2", "APL-1.0"] {
        let l = define_license(id).unwrap();
        assert_eq!(l.id, id);
        assert!(!l.text.is_empty());
    }
    assert!(define_license("Apache-2.0").unwrap().header.is_some());
}

#[test]
fn body_drops_two_lines_and_blanks() {
    let text = "\nMIT License\n\nCopyright (c) <year>\n\nPermission is hereby granted\r\n";
    assert_eq!(license_body(text), vec!["Copyright (c) <year>", "Permission is hereby granted"]);
    assert_eq!(license_body("a\nb"), Vec::<String>::new());
    assert_eq!(license_body(""), Vec::<String>::new());
}

#[test]
fn body_of_a_real_license() {
    let l = define_license("MIT").unwrap();
    let body = license_body(&l.text);
    let expected: Vec<String> = l
        .text
        .lines()
        .skip(2)
        .filter(|x| !x.is_empty())
        .map(|x| x.to_string())
        .collect();
    assert_eq!(body, expected);
    assert!(!body.is_empty());
}
