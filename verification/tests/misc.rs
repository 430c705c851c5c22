use edsm_dumps_model::config::Config;
use edsm_dumps_model::download;
use edsm_dumps_model::err::{ErrorMessageExt, Fail};
use edsm_dumps_model::schema::criteria::{default_enum_string_max, Criteria, Criterias};
use edsm_dumps_model::target::{EtagStoreage, Mode, Target};

#[test]
fn fail_shows_its_messages_from_the_outside_in() {
    let f = Fail::new("disk full");
    assert_eq!(f.message(), "disk full");
    let g = f.msg("can't save").msg("download failed");
    assert_eq!(g.message(), "download failed: can't save: disk full");
    let e = Fail::from_error("timed out").msg("can't connect");
    assert_eq!(e.message(), "can't connect: timed out");
}

#[test]
fn fail_without_message_takes_the_next_one() {
    let waiting = Fail::Fail(None, Box::new(Fail::new("inner")));
    assert_eq!(waiting.message(), "inner");
    match waiting.msg("outer") {
        Fail::Fail(Some(m), inner) => {
            assert_eq!(m, "outer");
            assert!(matches!(*inner, Fail::Message(ref s) if s == "inner"));
        }
        _ => panic!("a failure with a message is expected"),
    }
    match Fail::new("inner").msg("outer") {
        Fail::Fail(Some(m), inner) => {
            assert_eq!(m, "outer");
            assert!(matches!(*inner, Fail::Message(ref s) if s == "inner"));
        }
        _ => panic!("a failure with a message is expected"),
    }
}

#[test]
fn err_msg_names_what_is_missing() {
    let none: Option<u8> = None;
    match none.err_msg("no value") {
        Err(Fail::Message(m)) => assert_eq!(m, "no value"),
        _ => panic!("a message is expected"),
    }
    assert!(matches!(Some(3u8).err_msg("no value"), Ok(3)));
    let failed: Result<u8, Fail> = Err(Fail::new("inner"));
    assert_eq!(failed.err_msg("outer").unwrap_err().message(), "outer: inner");
    let fine: Result<u8, Fail> = Ok(1);
    assert!(matches!(fine.err_msg("outer"), Ok(1)));
}

#[test]
fn mode_is_named_by_its_name_or_first_letter() {
    for s in ["", "s", "small", " Small\n", "S", "\t"] {
        assert_eq!(Mode::parse(s).unwrap(), Mode::Small, "{:?}", s);
    }
    for s in ["n", "normal", "NORMAL", " n "] {
        assert_eq!(Mode::parse(s).unwrap(), Mode::Normal, "{:?}", s);
    }
    for s in ["f", "full", "Full\r\n"] {
        assert_eq!(Mode::parse(s).unwrap(), Mode::Full, "{:?}", s);
    }
}

#[test]
fn unknown_mode_is_an_error_that_holds_the_word() {
    let e = Mode::parse("  Huge ").unwrap_err();
    assert_eq!(e.message(), "unknown mode: huge");
    assert!(Mode::parse("sm").is_err());
    assert!(Mode::from_word("Small").is_err());
    assert_eq!(Mode::from_word("x").unwrap_err().message(), "unknown mode: x");
    assert_eq!(Mode::from_word("full").unwrap(), Mode::Full);
}

#[test]
fn a_mode_takes_the_files_of_the_smaller_ones() {
    let modes = [Mode::Small, Mode::Normal, Mode::Full];
    for (i, run) in modes.iter().enumerate() {
        for (j, file) in modes.iter().enumerate() {
            assert_eq!(run.takes(*file), j <= i);
            assert_eq!(run.takes(*file), !(*file > *run));
        }
    }
}

#[test]
fn target_name_follows_the_last_slash() {
    let t = Target::new("https://www.edsm.net/dump/powerPlay.json.gz".to_string(), Mode::Small);
    assert_eq!(t.url(), "https://www.edsm.net/dump/powerPlay.json.gz");
    assert_eq!(t.name().unwrap(), "powerPlay.json.gz");
    assert_eq!(t.mode(), Mode::Small);
    let bare = Target::new("file".to_string(), Mode::Full);
    assert_eq!(bare.name().unwrap(), "file");
    let open = Target::new("https://host/dir/".to_string(), Mode::Normal);
    assert_eq!(open.name().unwrap(), "");
    let empty = Target::new(String::new(), Mode::Normal);
    assert_eq!(empty.name().unwrap(), "");
    let wide = Target::new("https://host/d\u{e9}p\u{f4}t/\u{e9}t\u{e9}.json".to_string(), Mode::Normal);
    assert_eq!(wide.name().unwrap(), "\u{e9}t\u{e9}.json");
}

#[test]
fn download_target_has_url_and_name() {
    let t = download::Target::new("https://www.edsm.net/dump/stations.json.gz".to_string());
    assert_eq!(t.url(), "https://www.edsm.net/dump/stations.json.gz");
    assert_eq!(t.name().unwrap(), "stations.json.gz");
    assert_eq!(download::file_name("a/b/c"), "c");
    assert_eq!(download::file_name("/"), "");
    let store = download::EtagStoreage::new("./.etags.json");
    assert_eq!(store.path(), "./.etags.json");
    let other = EtagStoreage::new("./.caches.json");
    assert_eq!(other.path(), "./.caches.json");
}

#[test]
fn dumps_dir_is_the_current_directory_unless_set() {
    assert_eq!(Config::new(None).dumps_dir(), ".");
    assert_eq!(Config::new(Some("/data/dumps".to_string())).dumps_dir(), "/data/dumps");
    assert_eq!(Config::new(Some(String::new())).dumps_dir(), "");
}

#[test]
fn criteria_remember_the_split_fields() {
    let mut c = Criteria::new();
    assert_eq!(c.enum_string_max(), 127);
    assert_eq!(default_enum_string_max(), 127);
    assert_eq!(c.is_split_enum(""), None);
    c.add("", "type");
    c.add(".rings[]", "kind");
    assert_eq!(c.is_split_enum(""), Some("type"));
    assert_eq!(c.is_split_enum(".rings[]"), Some("kind"));
    assert_eq!(c.is_split_enum(".rings"), None);
    c.add("", "class");
    assert_eq!(c.is_split_enum(""), Some("class"));
    assert_eq!(c.is_split_enum(".rings[]"), Some("kind"));
    let d = c.copy();
    assert_eq!(d.is_split_enum(""), Some("class"));
    assert_eq!(Criteria::with_enum_string_max(3).enum_string_max(), 3);
    assert_eq!(Criteria::default().enum_string_max(), 127);
}

#[test]
fn criterias_fall_back_to_the_defaults() {
    let mut all = Criterias::new();
    let mut bodies = Criteria::with_enum_string_max(8);
    bodies.add("", "type");
    all.insert("bodies", bodies);
    let found = all.get("bodies");
    assert_eq!(found.enum_string_max(), 8);
    assert_eq!(found.is_split_enum(""), Some("type"));
    let missing = all.get("stations");
    assert_eq!(missing.enum_string_max(), 127);
    assert_eq!(missing.is_split_enum(""), None);
    all.insert("bodies", Criteria::new());
    assert_eq!(all.get("bodies").enum_string_max(), 127);
}
