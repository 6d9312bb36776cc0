use movie_bot::searchers::{NetflixSearcher, ShahidSearcher};

fn hex(n: u8, upper: bool) -> char {
    let digits = if upper { "0123456789ABCDEF" } else { "0123456789abcdef" };
    digits.chars().nth(n as usize).unwrap()
}

fn is_alphanumeric(b: u8) -> bool {
    (0x30..=0x39).contains(&b) || (0x41..=0x5a).contains(&b) || (0x61..=0x7a).contains(&b)
}

fn percent(text: &str) -> String {
    let mut out = String::new();
    for b in text.bytes() {
        if is_alphanumeric(b) || b == b'-' || b == b'.' || b == b'_' || b == b'~' {
            out.push(b as char);
        } else {
            out.push('%');
            out.push(hex(b / 16, true));
            out.push(hex(b % 16, true));
        }
    }
    out
}

fn form(text: &str) -> String {
    let mut out = String::new();
    for b in text.bytes() {
        if is_alphanumeric(b) || b == b'*' || b == b'-' || b == b'.' || b == b'_' {
            out.push(b as char);
        } else if b == b' ' {
            out.push('+');
        } else {
            out.push('%');
            out.push(hex(b / 16, true));
            out.push(hex(b % 16, true));
        }
    }
    out
}

fn json(text: &str) -> String {
    let mut out = String::from("\"");
    for c in text.chars() {
        match c as u32 {
            0x22 => out.push_str("\\\""),
            0x5c => out.push_str("\\\\"),
            0x08 => out.push_str("\\b"),
            0x09 => out.push_str("\\t"),
            0x0a => out.push_str("\\n"),
            0x0c => out.push_str("\\f"),
            0x0d => out.push_str("\\r"),
            u if u < 0x20 => {
                out.push_str("\\u00");
                out.push(hex(u as u8 / 16, false));
                out.push(hex(u as u8 % 16, false));
            }
            _ => out.push(c),
        }
    }
    out.push('"');
    out
}

fn samples() -> Vec<String> {
    let mut all = vec![
        String::new(),
        "plain".to_string(),
        "a b+c&d=e/f?g#h%i".to_string(),
        "*-._~!'()".to_string(),
        "كامل العدد".to_string(),
        "é€😀\u{7f}\u{80}\u{ff}\u{2028}".to_string(),
        "quote\"back\\slash".to_string(),
    ];
    let mut every = String::new();
    for n in 0u32..0x180 {
        every.push(char::from_u32(n).unwrap());
    }
    all.push(every);
    all
}

#[test]
fn json_strings_escape_what_json_asks_for() {
    for id in samples() {
        let expected = format!(
            "{{\"operationName\":\"PreviewModalEpisodeSelector\",\"variables\":{{\"showId\":{},\"seasonCount\":30}},\"extensions\":{{\"persistedQuery\":{{\"id\":\"7515a9d0-9422-4bbd-b7fe-aefa7f17ef5a\",\"version\":102}}}}}}",
            json(&id)
        );
        assert_eq!(NetflixSearcher::show_query(&id), Some(expected), "id {:?}", id);
    }
}

#[test]
fn requests_in_addresses_are_percent_encoded() {
    for name in samples() {
        let request = format!("{{\"name\":{},\"pageNumber\":0,\"pageSize\":24}}", json(&name));
        let expected = format!(
            "https://api3.shahid.net/proxy/v2.1/t-search?request={}&exactMatch=false&country=EG",
            percent(&request)
        );
        assert_eq!(ShahidSearcher::search_url(&name), Some(expected), "name {:?}", name);
        let request = format!(
            "{{\"pageNumber\":7,\"pageSize\":6,\"playListId\":{},\"sorts\":[{{\"order\":\"DESC\",\"type\":\"SORTDATE\"}}],\"isDynamicPlaylist\":false}}",
            json(&name)
        );
        let expected = format!(
            "https://api3.shahid.net/proxy/v2.1/product/playlist?request={}&country=EG",
            percent(&request)
        );
        assert_eq!(ShahidSearcher::format_shahid_playlist_url(&name, 7), Some(expected));
    }
}

#[test]
fn the_search_form_joins_encoded_pairs() {
    for name in samples() {
        let head = format!(
            "[\"search\",\"query\",\"@@NAPA-49279779-77a7-46f8-a83a-f031d1ef037c\",\"{}\",",
            name
        );
        let tails = [
            "\"summary\"]",
            "{\"from\":0,\"to\":1},\"summary\"]",
            "{\"from\":0,\"to\":1},{\"from\":0,\"to\":47},\"summary\"]",
            "{\"from\":0,\"to\":1},{\"from\":0,\"to\":47},\"reference\",[\"availability\",\"episodeCount\",\"inRemindMeList\",\"itemSummary\",\"queue\",\"summary\"]]",
        ];
        let mut expected = String::new();
        for tail in tails {
            expected.push_str("path=");
            expected.push_str(&form(&format!("{}{}", head, tail)));
            expected.push('&');
        }
        expected.push_str("authURL=");
        expected.push_str(&form("1739263844285.2XpQna0eN71gFJg+gzS5ycqyaAo="));
        assert_eq!(NetflixSearcher::create_form_data(&name), Some(expected), "name {:?}", name);
    }
}
