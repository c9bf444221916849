use clusterctl::parameters::{decode_parameters, encode_parameters, escape_value, parameter_token, set_parameter};

fn params(items: &[(&str, &str)]) -> Vec<(String, String)> {
    items.iter().map(|(n, v)| (n.to_string(), v.to_string())).collect()
}

#[test]
fn empty_names_emit_no_token() {
    let ps = params(&[("", "x"), ("flag", ""), ("", ""), ("k", "v")]);
    assert_eq!(encode_parameters(&ps), "flag k=\"v\"");
}

#[test]
fn no_parameters_encode_to_nothing() {
    assert_eq!(encode_parameters(&Vec::new()), "");
    assert_eq!(encode_parameters(&params(&[("", "only value")])), "");
}

#[test]
fn values_are_quoted_and_escaped() {
    assert_eq!(escape_value("say \"hi\" \\ now"), "say \\\"hi\\\" \\\\ now");
    assert_eq!(parameter_token("msg", "a \"b\""), "msg=\"a \\\"b\\\"\"");
    assert_eq!(parameter_token("bare", ""), "bare");
}

#[test]
fn quoted_values_round_trip() {
    let ps = params(&[
        ("msg", "two words and a \"quote\""),
        ("", "dropped"),
        ("path", "C:\\dir\\"),
        ("force", ""),
        ("name", "x=y"),
    ]);
    let encoded = encode_parameters(&ps);
    let decoded = decode_parameters(&encoded);
    let expected = params(&[
        ("msg", "two words and a \"quote\""),
        ("path", "C:\\dir\\"),
        ("force", ""),
        ("name", "x=y"),
    ]);
    assert_eq!(decoded, expected);
}

#[test]
fn decoding_skips_repeated_spaces() {
    let decoded = decode_parameters("  a   b=\"1 2\"  ");
    assert_eq!(decoded, params(&[("a", ""), ("b", "1 2")]));
}

#[test]
fn setting_a_parameter_again_keeps_its_place() {
    let mut ps = params(&[("a", "1"), ("b", "2")]);
    set_parameter(&mut ps, "a", "3");
    set_parameter(&mut ps, "c", "4");
    assert_eq!(ps, params(&[("a", "3"), ("b", "2"), ("c", "4")]));
}
