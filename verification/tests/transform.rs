use vape::{augment, map_text, rand_kana, render, to_fw, KanaRng};

#[test]
fn test_supported_fw() {
    let orig = " 0123456789abcdefghijklmnopqrstuvwxyzABCDEFGHIJKLMNOPQRSTUVWXYZ\
                    !\"#$%&()*+,-./:;<=>?@[\\]^_`{|}~";
    let fw = "　０１２３４５６７８９ａｂｃｄｅｆｇｈｉｊｋｌｍｎｏｐｑｒｓｔｕｖｗｘｙｚ\
            ＡＢＣＤＥＦＧＨＩＪＫＬＭＮＯＰＱＲＳＴＵＶＷＸＹＺ\
            ！＂＃＄％＆（）＊＋，－．／：；＜＝＞？＠［＼］＾＿｀｛｜｝～";
    let orig_fw: String = orig.chars().map(|c| to_fw(c).unwrap_or(c)).collect();
    assert_eq!(orig_fw, fw);
}

#[test]
fn test_no_fw() {
    let orig = "😍😍😍🙏🙏🙏🍆🍆🍆";
    let fw = "😍😍😍🙏🙏🙏🍆🍆🍆";
    let orig_fw: String = orig.chars().map(|c| to_fw(c).unwrap_or(c)).collect();
    assert_eq!(orig_fw, fw);
}

#[test]
fn printable_ascii_shifts_by_fee0() {
    for u in 0x21u32..=0x7E {
        let c = char::from_u32(u).unwrap();
        let expect = char::from_u32(u + 0xFEE0).unwrap();
        assert_eq!(to_fw(c), Some(expect));
    }
}

#[test]
fn space_maps_to_ideographic_space() {
    assert_eq!(to_fw(' '), Some('\u{3000}'));
}

#[test]
fn outside_range_is_unchanged() {
    // Control characters, DEL, and astral code points all pass through.
    for c in ['\u{0}', '\t', '\n', '\u{1F}', '\u{7F}', 'é', 'あ', '\u{1F600}'] {
        assert_eq!(to_fw(c), None);
    }
    let orig = "😍🙏🍆 and こんにちは".to_string();
    let kept: String = orig.chars().map(|c| to_fw(c).unwrap_or(c)).collect();
    for (a, b) in orig.chars().zip(kept.chars()) {
        if !(0x20..=0x7E).contains(&(a as u32)) {
            assert_eq!(a, b);
        }
    }
}

#[test]
fn mapping_preserves_length() {
    for text in ["", "Hello, world!", "混ぜた text 123\n", "😍😍😍"] {
        let chars: Vec<char> = text.chars().collect();
        let out = map_text(&chars);
        assert_eq!(out.len(), chars.len());
    }
}

#[test]
fn suffix_zero_is_identity() {
    let text: Vec<char> = "Ｈｅｌｌｏ！\n".chars().collect();
    let mut rng = KanaRng::new(42);
    let out = augment(text.clone(), 0, &mut rng);
    assert_eq!(out, text);
}

#[test]
fn suffix_five_without_newline() {
    let text: Vec<char> = "ｈｉ".chars().collect();
    let mut rng = KanaRng::new(7);
    let out = augment(text.clone(), 5, &mut rng);
    assert_eq!(out.len(), text.len() + 1 + 5);
    assert_eq!(&out[..text.len()], &text[..]);
    assert_eq!(out[text.len()], '\u{3000}');
    for &c in &out[text.len() + 1..] {
        let u = c as u32;
        assert!((0x30A0..=0x30FF).contains(&u));
    }
}

#[test]
fn suffix_three_with_newline() {
    let text: Vec<char> = "ｈｉ\n".chars().collect();
    let mut rng = KanaRng::new(99);
    let out = augment(text.clone(), 3, &mut rng);
    assert_eq!(out.len(), text.len() + 1 + 3);
    assert_eq!(&out[..text.len() - 1], &text[..text.len() - 1]);
    assert_eq!(out[text.len() - 1], '\u{3000}');
    for &c in &out[text.len()..out.len() - 1] {
        let u = c as u32;
        assert!((0x30A0..=0x30FF).contains(&u));
    }
    assert_eq!(*out.last().unwrap(), '\n');
    // The newline is neither duplicated nor lost.
    assert_eq!(out.iter().filter(|&&c| c == '\n').count(), 1);
}

#[test]
fn render_hello_without_kana() {
    let text: Vec<char> = "Hello!\n".chars().collect();
    let mut rng = KanaRng::new(1);
    let out: String = render(text, 0, &mut rng).into_iter().collect();
    assert_eq!(out, "Ｈｅｌｌｏ！\n");
}

#[test]
fn render_hi_with_two_kana() {
    let text: Vec<char> = "Hi\n".chars().collect();
    let mut rng = KanaRng::new(12345);
    let out: Vec<char> = render(text, 2, &mut rng);
    assert_eq!(out.len(), 6);
    assert_eq!(out[0], 'Ｈ');
    assert_eq!(out[1], 'ｉ');
    assert_eq!(out[2], '\u{3000}');
    for &c in &out[3..5] {
        let u = c as u32;
        assert!((0x30A0..=0x30FF).contains(&u));
    }
    assert_eq!(out[5], '\n');
}

#[test]
fn suffix_255_appends_255_plus_separator() {
    let text: Vec<char> = "ｘ".chars().collect();
    let mut rng = KanaRng::new(3);
    let out = augment(text.clone(), 255, &mut rng);
    assert_eq!(out.len(), text.len() + 1 + 255);
    assert_eq!(out[text.len()], '\u{3000}');
    for &c in &out[text.len() + 1..] {
        let u = c as u32;
        assert!((0x30A0..=0x30FF).contains(&u));
    }
}

#[test]
fn rand_kana_stays_in_block_and_varies() {
    let mut rng = KanaRng::new(0xDEADBEEF);
    let mut seen = Vec::new();
    for _ in 0..64 {
        let k = rand_kana(&mut rng);
        assert!((0x30A0..=0x30FF).contains(&k));
        seen.push(k);
    }
    // A fixed generator would fail this: the draws are not all equal.
    assert!(seen.iter().any(|&k| k != seen[0]));
}

#[test]
fn same_seed_same_suffix() {
    let text: Vec<char> = "abc".chars().collect();
    let mut r1 = KanaRng::new(5);
    let mut r2 = KanaRng::new(5);
    assert_eq!(augment(text.clone(), 8, &mut r1), augment(text, 8, &mut r2));
}
