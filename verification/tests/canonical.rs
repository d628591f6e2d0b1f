use weapay::signature::canonical_string;

#[test]
fn canonical_string_joins_fields_with_line_feeds() {
    let fields = vec!["GET", "/v3/certificates", "1554208460", "593BEC0C930BF1AFEB40B4A08C8FB242", ""];
    assert_eq!(
        canonical_string(&fields),
        "GET\n/v3/certificates\n1554208460\n593BEC0C930BF1AFEB40B4A08C8FB242\n\n"
    );
}

#[test]
fn canonical_string_of_a_single_field_ends_with_one_line_feed() {
    assert_eq!(canonical_string(&vec!["a=1&b=2"]), "a=1&b=2\n");
}
