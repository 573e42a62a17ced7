use queryer::dialect::{example_sql, CalDialect};
use sqlparser::dialect::Dialect;

#[test]
fn identifiers_start_with_a_letter_or_underscore() {
    for ch in ['a', 'z', 'A', 'Z', 'm', '_'] {
        assert!(CalDialect::starts_identifier(ch), "{ch}");
        assert!(CalDialect.is_identifier_start(ch), "{ch}");
    }
    for ch in ['0', '9', ':', '/', '.', '-', ' ', '`', '{', '@', '[', 'é'] {
        assert!(!CalDialect::starts_identifier(ch), "{ch}");
        assert!(!CalDialect.is_identifier_start(ch), "{ch}");
    }
}

#[test]
fn identifiers_hold_the_characters_of_a_url() {
    for ch in ['a', 'z', 'A', 'Z', '0', '9', ':', '/', '?', '&', '=', '-', '_', '.'] {
        assert!(CalDialect::continues_identifier(ch), "{ch}");
        assert!(CalDialect.is_identifier_part(ch), "{ch}");
    }
    for ch in [' ', ',', ';', '(', ')', '\'', '"', '*', '+', '<', '>', '%', '#', 'é'] {
        assert!(!CalDialect::continues_identifier(ch), "{ch}");
        assert!(!CalDialect.is_identifier_part(ch), "{ch}");
    }
}

#[test]
fn example_is_one_statement() {
    let sql = example_sql();
    assert!(sql.starts_with("SELECT location name, total_cases, new_cases, total_deaths, new_deaths FROM https://"));
    assert!(sql.ends_with("owid-covid-latest.csv where new_deaths >= 500 ORDER BY new_cases DESC LIMIT 6 OFFSET 5"));
    assert_eq!(queryer::parse::statements(&sql).unwrap().len(), 1);
}
