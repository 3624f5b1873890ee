use plotpy::text::{positive_numeral, write_array, write_decimal};

#[test]
fn decimal_numerals() {
    let mut out = String::from("n=");
    write_decimal(&mut out, 0);
    assert_eq!(out, "n=0");
    let mut out = String::new();
    write_decimal(&mut out, 7770);
    assert_eq!(out, "7770");
    let mut out = String::new();
    write_decimal(&mut out, usize::MAX);
    assert_eq!(out, usize::MAX.to_string());
}

#[test]
fn positive_numerals() {
    assert!(positive_numeral("2.5"));
    assert!(positive_numeral("0.001"));
    assert!(positive_numeral("inf"));
    assert!(!positive_numeral("0"));
    assert!(!positive_numeral("-0"));
    assert!(!positive_numeral("-3"));
    assert!(!positive_numeral("-inf"));
    assert!(!positive_numeral("NaN"));
    assert!(!positive_numeral(""));
}

#[test]
fn arrays_of_numerals() {
    let m = vec![
        vec!["1".to_string(), "-0.5".to_string()],
        vec!["2".to_string(), "3".to_string()],
    ];
    let mut out = String::from("# grid\n");
    write_array(&mut out, "x", &m);
    assert_eq!(out, "# grid\nx=np.array([[1,-0.5,],[2,3,],],dtype=float)\n");
    let ragged = vec![vec!["1".to_string()], vec![]];
    let mut out = String::new();
    write_array(&mut out, "y", &ragged);
    assert_eq!(out, "y=np.array([[1,],[],],dtype=float)\n");
}
