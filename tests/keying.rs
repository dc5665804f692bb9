use morze::session::{Msg, Promt};
use morze::table::{build_table, decode_symbols};
use morze::timing::{Timing, Window, DASH, DOT, GAP};

/// Keys each pattern in turn: a dot held 100 ms, a dash 300 ms, 100 ms up
/// between glyphs and 500 ms up before a new pattern.
fn keyed(patterns: &[&str]) -> Promt {
    let mut p = Promt::new(0);
    let mut now: u128 = 0;
    for (k, pat) in patterns.iter().enumerate() {
        for (j, g) in pat.chars().enumerate() {
            now += if j == 0 && k > 0 { 500 } else { 100 };
            p.update(Msg::KeyPressed, now);
            now += if g == DOT { 100 } else { 300 };
            p.update(Msg::KeyReleased, now);
        }
    }
    p
}

fn text(v: &[char]) -> String {
    v.iter().collect()
}

#[test]
fn windows_for_base_unit() {
    let t = Timing::from_unit(100);
    assert_eq!(t.dot, Window { lo: 50, hi: 150 });
    assert_eq!(t.line, Window { lo: 150, hi: 450 });
    assert_eq!(t.space, Window { lo: 300, hi: 900 });
    assert_eq!(Promt::new(0).timing(), t);
}

#[test]
fn windows_for_odd_unit() {
    let t = Timing::from_unit(7);
    assert_eq!(t.dot, Window { lo: 3, hi: 10 });
    assert_eq!(t.line, Window { lo: 10, hi: 31 });
    assert_eq!(t.space, Window { lo: 21, hi: 63 });
    assert_eq!(Promt::with_unit(7, 0).timing(), t);
}

#[test]
fn release_classification_bounds() {
    let t = Timing::from_unit(100);
    assert_eq!(t.classify_release(49), None);
    assert_eq!(t.classify_release(50), Some(DOT));
    assert_eq!(t.classify_release(150), Some(DOT));
    assert_eq!(t.classify_release(151), Some(DASH));
    assert_eq!(t.classify_release(450), Some(DASH));
    assert_eq!(t.classify_release(451), None);
    assert_eq!(t.classify_release(0), None);
}

#[test]
fn press_classification_bounds() {
    let t = Timing::from_unit(100);
    assert_eq!(t.classify_press(299), None);
    assert_eq!(t.classify_press(300), Some(GAP));
    assert_eq!(t.classify_press(900), Some(GAP));
    assert_eq!(t.classify_press(901), None);
}

#[test]
fn release_inside_dot_window_appends_dot() {
    let mut p = Promt::new(1000);
    p.on_key_up(1120);
    assert_eq!(p.morze(), &vec![DOT]);
}

#[test]
fn release_inside_dash_window_appends_dash() {
    let mut p = Promt::new(1000);
    p.on_key_up(1300);
    assert_eq!(p.morze(), &vec![DASH]);
}

#[test]
fn release_outside_windows_appends_nothing() {
    let mut p = Promt::new(0);
    p.on_key_up(20);
    p.on_key_up(620);
    p.on_key_up(1620);
    assert!(p.morze().is_empty());
}

#[test]
fn scenario_base_unit_releases() {
    let mut p = Promt::new(0);
    p.update(Msg::KeyReleased, 80);
    assert_eq!(p.morze(), &vec![DOT]);
    p.update(Msg::KeyReleased, 80 + 140);
    assert_eq!(p.morze(), &vec![DOT, DOT]);
    p.update(Msg::KeyReleased, 80 + 140 + 320);
    assert_eq!(p.morze(), &vec![DOT, DOT, DASH]);
    p.update(Msg::KeyReleased, 80 + 140 + 320 + 700);
    assert_eq!(p.morze(), &vec![DOT, DOT, DASH]);
}

#[test]
fn long_pause_before_press_appends_separator() {
    let mut p = Promt::new(0);
    p.on_key_down(200);
    assert!(p.morze().is_empty());
    p.on_key_down(700);
    assert_eq!(p.morze(), &vec![GAP]);
    p.on_key_down(2000);
    assert_eq!(p.morze(), &vec![GAP]);
}

#[test]
fn every_event_restarts_the_timer() {
    let mut p = Promt::new(0);
    p.update(Msg::Decode, 1000);
    p.update(Msg::KeyReleased, 1100);
    assert_eq!(p.morze(), &vec![DOT]);
    p.update(Msg::Clear, 5000);
    p.update(Msg::KeyReleased, 5300);
    assert_eq!(p.morze(), &vec![DASH]);
}

#[test]
fn dot_dash_decodes_to_a() {
    let mut p = Promt::new(0);
    p.on_key_up(100);
    p.on_key_down(150);
    p.on_key_up(450);
    assert_eq!(p.morze(), &vec![DOT, DASH]);
    assert_eq!(text(&p.decode()), "А");
}

#[test]
fn empty_token_then_letter() {
    let mut p = Promt::new(0);
    p.on_key_down(500);
    p.on_key_up(600);
    p.on_key_down(650);
    p.on_key_up(950);
    assert_eq!(p.morze(), &vec![GAP, DOT, DASH]);
    assert_eq!(text(&p.decode()), " А");
}

#[test]
fn unknown_token_then_letter() {
    let p = keyed(&["*****", "—"]);
    assert_eq!(text(p.morze()), "***** —");
    assert_eq!(text(&p.decode()), " Т");
}

#[test]
fn decode_twice_gives_same_text() {
    let mut p = keyed(&["**", "—*"]);
    let first = p.decode();
    let second = p.decode();
    assert_eq!(first, second);
    assert_eq!(text(&first), "ИН");
    p.update(Msg::Decode, 100_000);
    p.update(Msg::Decode, 100_100);
    assert_eq!(text(p.text()), "ИН");
    assert_eq!(text(p.morze()), "** —*");
}

#[test]
fn clear_then_decode_is_empty() {
    let mut p = keyed(&["*—", "***"]);
    p.update(Msg::Decode, 100_000);
    assert_eq!(text(p.text()), "АС");
    p.clear();
    assert!(p.morze().is_empty());
    assert!(p.text().is_empty());
    assert!(p.decode().is_empty());
}

#[test]
fn clear_message_empties_buffer_and_text() {
    let mut p = keyed(&["—"]);
    p.update(Msg::Decode, 100_000);
    p.update(Msg::Clear, 100_100);
    p.update(Msg::Decode, 100_200);
    assert!(p.morze().is_empty());
    assert!(p.text().is_empty());
}

#[test]
fn fresh_session_decodes_to_nothing() {
    let p = Promt::new(0);
    assert!(p.decode().is_empty());
    assert!(p.text().is_empty());
}

#[test]
fn round_trip_of_every_letter() {
    let table = [
        ("*—", 'А'), ("—***", 'Б'), ("——*", 'Г'), ("—**", 'Д'), ("*", 'Е'),
        ("***—", 'Ж'), ("——**", 'З'), ("**", 'И'), ("*——", 'Й'), ("—*—", 'К'),
        ("*—**", 'Л'), ("——", 'М'), ("—*", 'Н'), ("———", 'О'), ("*——*", 'П'),
        ("*—*", 'Р'), ("***", 'С'), ("—", 'Т'), ("**—", 'У'), ("**—*", 'Ф'),
        ("****", 'Х'), ("—*—*", 'Ц'), ("———*", 'Ч'), ("————", 'Ш'), ("——*—", 'Щ'),
        ("*——*—*", 'Ъ'), ("—*——", 'Ы'), ("—**—", 'Ь'), ("**—**", 'Э'), ("**——", 'Ю'),
        ("*—*—", 'Я'),
    ];
    for (pat, letter) in table {
        let p = keyed(&[pat]);
        assert_eq!(text(p.morze()), pat);
        assert_eq!(p.decode(), vec![letter], "pattern {}", pat);
    }
}

#[test]
fn whole_word_decodes() {
    let p = keyed(&["*—*", "*—", "—**", "**", "———"]);
    assert_eq!(text(&p.decode()), "РАДИО");
}

#[test]
fn decode_symbols_on_separators_only() {
    let table = build_table();
    assert_eq!(decode_symbols(&table, &vec![GAP, GAP]), vec![' ', ' ', ' ']);
    assert_eq!(decode_symbols(&table, &vec![GAP]), vec![' ', ' ']);
    assert!(decode_symbols(&table, &vec![]).is_empty());
}

#[test]
fn decode_symbols_on_long_token() {
    let table = build_table();
    let mut b: Vec<char> = vec![DOT; 70];
    b.push(GAP);
    b.push(DASH);
    assert_eq!(decode_symbols(&table, &b), vec![' ', 'Т']);
    assert_eq!(decode_symbols(&table, &vec![DASH; 64]), vec![' ']);
}

#[test]
fn table_has_thirty_one_patterns() {
    let table = build_table();
    assert_eq!(table.len(), 31);
    assert_eq!(table.get(&0b101), Some(&'А'));
    assert_eq!(table.get(&0b1011), Some(&'Й'));
}

#[test]
fn messages_compare() {
    assert_eq!(Msg::Clear, Msg::Clear);
    assert_ne!(Msg::KeyPressed, Msg::KeyReleased);
}
