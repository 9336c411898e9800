use scoreboard::{
    count_dashes, create_nonstarted_game, date_shortcut, extract_date_argument, form_game,
    format_date, interpret_block, join_words, parse_leader, parse_u32, placeholder_table,
    read_game_block, words_of, DateShortcut, ExtractionError, Field, GameBlockText, LeaderFault,
    Team, TimezoneIndex,
};
use select::document::Document;
use select::predicate::Class;

fn strings(items: &[&str]) -> Vec<String> {
    items.iter().map(|s| s.to_string()).collect()
}

#[test]
fn numerals() {
    assert_eq!(parse_u32("0"), Some(0));
    assert_eq!(parse_u32("102"), Some(102));
    assert_eq!(parse_u32("+7"), Some(7));
    assert_eq!(parse_u32("007"), Some(7));
    assert_eq!(parse_u32("4294967295"), Some(u32::MAX));
    assert_eq!(parse_u32("4294967296"), None);
    assert_eq!(parse_u32("99999999999999999999"), None);
    assert_eq!(parse_u32(""), None);
    assert_eq!(parse_u32("+"), None);
    assert_eq!(parse_u32("-1"), None);
    assert_eq!(parse_u32(" 5"), None);
    assert_eq!(parse_u32("5a"), None);
    assert_eq!(parse_u32("\u{0663}"), None);
}

#[test]
fn words_split_on_any_whitespace() {
    assert_eq!(words_of("  a bc\t\nd \u{3000}e  "), strings(&["a", "bc", "d", "e"]));
    assert_eq!(words_of(""), Vec::<String>::new());
    assert_eq!(words_of(" \t "), Vec::<String>::new());
    assert_eq!(words_of("solo"), strings(&["solo"]));
}

#[test]
fn joining_words() {
    let ws = strings(&["Giannis", "Sina", "Antetokounmpo", "33"]);
    assert_eq!(join_words(&ws, 3), "Giannis Sina Antetokounmpo");
    assert_eq!(join_words(&ws, 1), "Giannis");
    assert_eq!(join_words(&ws, 0), "");
}

#[test]
fn leader_entries() {
    let (name, value) = parse_leader("Nikola Jokic 16").unwrap();
    assert_eq!(name, "Nikola Jokic");
    assert_eq!(value, 16);
    let (name, value) = parse_leader("Zion 0").unwrap();
    assert_eq!(name, "Zion");
    assert_eq!(value, 0);
    assert_eq!(parse_leader("42").unwrap_err(), LeaderFault::TooFewWords);
    assert_eq!(parse_leader("").unwrap_err(), LeaderFault::TooFewWords);
    assert_eq!(parse_leader("LeBron James abc").unwrap_err(), LeaderFault::BadNumber);
    assert_eq!(parse_leader("LeBron James 12.5").unwrap_err(), LeaderFault::BadNumber);
}

#[test]
fn placeholder_width() {
    assert!(placeholder_table(10));
    assert!(!placeholder_table(9));
    assert!(!placeholder_table(12));
}

#[test]
fn zone_slots() {
    assert_eq!(TimezoneIndex::Pacific.slot(), 0);
    assert_eq!(TimezoneIndex::Mountain.slot(), 1);
    assert_eq!(TimezoneIndex::Central.slot(), 2);
    assert_eq!(TimezoneIndex::Eastern.slot(), 3);
}

#[test]
fn default_team_is_blank() {
    let t = Team::default();
    assert_eq!(t.name, "");
    assert_eq!(t.score, 0);
    assert_eq!(t.points_leader, "");
    assert_eq!(t.rebounds_leader_value, 0);
}

#[test]
fn team_from_leaders() {
    let t = Team::from_leader_vector(
        "Denver".to_string(),
        121,
        strings(&["Jamal Murray", "Nikola Jokic", "Nikola Jokic"]),
        vec![34, 14, 11],
    );
    assert_eq!(t.name, "Denver");
    assert_eq!(t.score, 121);
    assert_eq!(t.points_leader, "Jamal Murray");
    assert_eq!(t.points_leader_value, 34);
    assert_eq!(t.rebounds_leader, "Nikola Jokic");
    assert_eq!(t.rebounds_leader_value, 14);
    assert_eq!(t.assists_leader, "Nikola Jokic");
    assert_eq!(t.assists_leader_value, 11);
}

#[test]
fn nonstarted_game() {
    let zones = strings(&["10:00a", "11:00a", "12:00p", "1:00p"]);
    let g = create_nonstarted_game("Boston", "Atlanta", &zones, TimezoneIndex::Mountain).unwrap();
    assert!(!g.has_started);
    assert_eq!(g.home_team.name, "Boston");
    assert_eq!(g.away_team.name, "Atlanta");
    assert_eq!(g.status_text, "11:00a");
    let r = create_nonstarted_game("Boston", "Atlanta", &Vec::new(), TimezoneIndex::Pacific);
    assert_eq!(r.unwrap_err(), ExtractionError::MissingField(Field::TimezoneCell(0)));
}

fn started_block(status: Option<&str>) -> GameBlockText {
    let mut scores = strings(&["1", "2", "3", "4", "Tot"]);
    scores.extend(strings(&["30", "25", "20", "22", "97"]));
    scores.extend(strings(&["28", "26", "24", "23", "101"]));
    GameBlockText {
        team_names: strings(&["Dallas", "Phoenix"]),
        score_cells: scores,
        leader_cells: strings(&["A B 30", "C D 25", "E 10", "F 12", "G 7", "H 9"]),
        timezone_cells: Vec::new(),
        status_text: status.map(|s| s.to_string()),
    }
}

#[test]
fn block_with_status() {
    let g = interpret_block(&started_block(Some("Final/OT")), TimezoneIndex::Eastern).unwrap();
    assert!(g.has_started);
    assert_eq!(g.away_team.score, 97);
    assert_eq!(g.home_team.score, 101);
    assert_eq!(g.status_text, "Final/OT");
    assert_eq!(g.home_team.assists_leader, "H");
}

#[test]
fn started_block_without_status() {
    let r = interpret_block(&started_block(None), TimezoneIndex::Eastern);
    assert_eq!(r.unwrap_err(), ExtractionError::MissingField(Field::StatusText));
}

#[test]
fn scheduled_block_needs_no_status() {
    let block = GameBlockText {
        team_names: strings(&["Dallas", "Phoenix"]),
        score_cells: vec![String::new(); 10],
        leader_cells: Vec::new(),
        timezone_cells: strings(&["4:00p", "5:00p", "6:00p", "7:00p"]),
        status_text: None,
    };
    let g = interpret_block(&block, TimezoneIndex::Eastern).unwrap();
    assert!(!g.has_started);
    assert_eq!(g.status_text, "7:00p");
}

const STARTED_PAGE: &str = "<html><body><div class=\"shsScoreboardCol\">\
<div class=\"shsTeamCol\">Final</div>\
<div class=\"shsNamD\"><a href=\"#\">LA Lakers</a></div>\
<div class=\"shsNamD\"><a href=\"#\">Boston</a></div>\
<span class=\"shsTotD\">1</span><span class=\"shsTotD\">2</span><span class=\"shsTotD\">3</span>\
<span class=\"shsTotD\">4</span><span class=\"shsTotD\">Tot</span>\
<span class=\"shsTotD\">20</span><span class=\"shsTotD\">20</span><span class=\"shsTotD\">20</span>\
<span class=\"shsTotD\">20</span><span class=\"shsTotD\">80</span>\
<span class=\"shsTotD\">21</span><span class=\"shsTotD\">21</span><span class=\"shsTotD\">21</span>\
<span class=\"shsTotD\">21</span><span class=\"shsTotD\">84</span>\
<div class=\"shsLeader\">LeBron James 30</div><div class=\"shsLeader\">Jayson Tatum 35</div>\
<div class=\"shsLeader\">Anthony Davis 12</div><div class=\"shsLeader\">Al Horford 10</div>\
<div class=\"shsLeader\">Austin Reaves 7</div><div class=\"shsLeader\">Jrue Holiday 8</div>\
</div></body></html>";

const SCHEDULED_PAGE: &str = "<html><body><div class=\"shsScoreboardCol\">\
<div class=\"shsNamD\"><a href=\"#\">Utah</a></div>\
<div class=\"shsNamD\"><a href=\"#\">Miami</a></div>\
<span class=\"shsTotD\"></span><span class=\"shsTotD\"></span><span class=\"shsTotD\"></span>\
<span class=\"shsTotD\"></span><span class=\"shsTotD\"></span><span class=\"shsTotD\"></span>\
<span class=\"shsTotD\"></span><span class=\"shsTotD\"></span><span class=\"shsTotD\"></span>\
<span class=\"shsTotD\"></span>\
<span class=\"shsTimezone\">4:30 PM PT</span><span class=\"shsTimezone\">5:30 PM MT</span>\
<span class=\"shsTimezone\">6:30 PM CT</span><span class=\"shsTimezone\">7:30 PM ET</span>\
</div></body></html>";

#[test]
fn reads_started_block_from_page() {
    let document = Document::from(STARTED_PAGE);
    let block = document.find(Class("shsScoreboardCol")).next().unwrap();
    let text = read_game_block(&block);
    assert_eq!(text.team_names, strings(&["LA Lakers", "Boston"]));
    assert_eq!(text.score_cells.len(), 15);
    assert_eq!(text.leader_cells.len(), 6);
    assert_eq!(text.status_text, Some("Final".to_string()));
    let g = form_game(block, TimezoneIndex::Eastern).unwrap();
    assert!(g.has_started);
    assert_eq!(g.away_team.name, "LA Lakers");
    assert_eq!(g.home_team.name, "Boston");
    assert_eq!(g.away_team.score, 80);
    assert_eq!(g.home_team.score, 84);
    assert_eq!(g.home_team.points_leader, "Jayson Tatum");
    assert_eq!(g.home_team.points_leader_value, 35);
    assert_eq!(g.status_text, "Final");
}

#[test]
fn reads_scheduled_block_from_page() {
    let document = Document::from(SCHEDULED_PAGE);
    let block = document.find(Class("shsScoreboardCol")).next().unwrap();
    let g = form_game(block, TimezoneIndex::Central).unwrap();
    assert!(!g.has_started);
    assert_eq!(g.away_team.name, "Utah");
    assert_eq!(g.home_team.name, "Miami");
    assert_eq!(g.status_text, "6:30 PM CT");
}

#[test]
fn date_formatting() {
    assert_eq!(format_date("2024-01-05".to_string()), "20240105");
    assert_eq!(format_date("2024-01-05-05:00".to_string()), "20240105");
    assert_eq!(format_date("2023-12-31+01:00".to_string()), "20231231+01:00");
    assert_eq!(count_dashes("2024-01-05-05:00"), 3);
    assert_eq!(count_dashes("20240105"), 0);
}

#[test]
fn date_shortcuts() {
    assert_eq!(date_shortcut("t"), Some(DateShortcut::Today));
    assert_eq!(date_shortcut("T"), Some(DateShortcut::Tomorrow));
    assert_eq!(date_shortcut("y"), Some(DateShortcut::Yesterday));
    assert_eq!(date_shortcut("tt"), None);
    assert_eq!(date_shortcut(""), None);
    assert_eq!(date_shortcut("20240105"), None);
}

#[test]
fn date_argument() {
    for arg in ["t", "T", "y"] {
        let day = extract_date_argument(&arg.to_string()).unwrap();
        assert_eq!(day.len(), 8);
        assert!(day.chars().all(|c| c.is_ascii_digit()));
    }
    let today: u32 = extract_date_argument(&"t".to_string()).unwrap().parse().unwrap();
    let yesterday: u32 = extract_date_argument(&"y".to_string()).unwrap().parse().unwrap();
    assert!(yesterday < today);
    assert_eq!(extract_date_argument(&"x".to_string()), None);
}
