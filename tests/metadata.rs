use envicutor::metadata::{decode_metadata, parse_decimal, parse_whole_seconds, split_metadata_line};
use envicutor::text::chars_of;

fn chars(s: &str) -> Vec<char> {
    s.chars().collect()
}

#[test]
fn decode_well_formed_report() {
    let m = decode_metadata("cgmem:1024\nexitcode:0\ntime:1\ntime-wall:2\n").ok().unwrap();
    assert_eq!(m.memory, Some(1024));
    assert_eq!(m.exit_code, Some(0));
    assert_eq!(m.cpu_time, Some(1));
    assert_eq!(m.wall_time, Some(2));
    assert_eq!(m.exit_signal, None);
    assert_eq!(m.exit_message, None);
    assert_eq!(m.exit_status, None);
}

#[test]
fn decode_line_without_colon_fails() {
    let e = decode_metadata("cgmem1024").err().unwrap();
    assert_eq!(e.line, 0);
}

#[test]
fn decode_reports_first_bad_line() {
    let e = decode_metadata("cgmem:1\nexitcode:x\nbroken\n").err().unwrap();
    assert_eq!(e.line, 1);
    let e = decode_metadata("cgmem:1\n\nexitcode:0").err().unwrap();
    assert_eq!(e.line, 1);
}

#[test]
fn decode_empty_report() {
    let m = decode_metadata("").ok().unwrap();
    assert_eq!(m.memory, None);
    assert_eq!(m.exit_code, None);
}

#[test]
fn decode_zero_memory_is_present() {
    let m = decode_metadata("cgmem:0").ok().unwrap();
    assert_eq!(m.memory, Some(0));
}

#[test]
fn decode_truncates_times_and_skips_unknown_keys() {
    let m = decode_metadata("time:0.912\ntime-wall:3.5\nmax-rss:100\ncsw-voluntary:7\n")
        .ok()
        .unwrap();
    assert_eq!(m.cpu_time, Some(0));
    assert_eq!(m.wall_time, Some(3));
    assert_eq!(m.memory, None);
}

#[test]
fn decode_text_fields_keep_colons() {
    let m = decode_metadata("status:SG\nexitsig:9\nmessage:Caught fatal signal 9: killed\n")
        .ok()
        .unwrap();
    assert_eq!(m.exit_status, Some("SG".to_string()));
    assert_eq!(m.exit_signal, Some(9));
    assert_eq!(m.exit_message, Some("Caught fatal signal 9: killed".to_string()));
}

#[test]
fn decode_empty_value_is_kept() {
    let m = decode_metadata("message:").ok().unwrap();
    assert_eq!(m.exit_message, Some(String::new()));
}

#[test]
fn decode_bad_numbers_fail() {
    assert!(decode_metadata("cgmem:-1").is_err());
    assert!(decode_metadata("cgmem:").is_err());
    assert!(decode_metadata("exitcode:4294967296").is_err());
    assert!(decode_metadata("time:1.2x").is_err());
}

#[test]
fn split_at_first_colon() {
    let (k, v) = split_metadata_line(&chars("message:a:b")).unwrap();
    assert_eq!(k, chars("message"));
    assert_eq!(v, chars("a:b"));
    assert!(split_metadata_line(&chars("no colon here")).is_none());
    let (k, v) = split_metadata_line(&chars(":")).unwrap();
    assert!(k.is_empty() && v.is_empty());
}

#[test]
fn parse_decimal_values() {
    assert_eq!(parse_decimal(&chars("0")), Some(0));
    assert_eq!(parse_decimal(&chars("+17")), Some(17));
    assert_eq!(parse_decimal(&chars("4294967295")), Some(u32::MAX));
    assert_eq!(parse_decimal(&chars("4294967296")), None);
    assert_eq!(parse_decimal(&chars("+")), None);
    assert_eq!(parse_decimal(&chars("")), None);
    assert_eq!(parse_decimal(&chars("12a")), None);
}

#[test]
fn parse_seconds_values() {
    assert_eq!(parse_whole_seconds(&chars("2.999")), Some(2));
    assert_eq!(parse_whole_seconds(&chars("7")), Some(7));
    assert_eq!(parse_whole_seconds(&chars("7.")), Some(7));
    assert_eq!(parse_whole_seconds(&chars(".5")), None);
    assert_eq!(parse_whole_seconds(&chars("1.2.3")), None);
}

#[test]
fn chars_of_keeps_order() {
    assert_eq!(chars_of("aé:"), vec!['a', 'é', ':']);
}
