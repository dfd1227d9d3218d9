use rustle::api::{DetailLoader, DetailStep};
use rustle::api::{
    choose_user_agent, id_chunks, image_url, qr_login_url, remaining_track_ids, request_url,
    request_user_agent, subscribe_path, subscribe_result, track_ids_from_json, user_agent,
    user_agent_for, CryptoApi, CsrfToken,
};
use rustle::json::{Json, JsonNumber};
use rustle::model::{Msg, SongCopyright, SongInfo};

#[test]
fn request_urls() {
    assert_eq!(
        request_url("/weapi/song/lyric", "tok", true, CryptoApi::Weapi),
        "https://music.163.com/weapi/song/lyric?csrf_token=tok"
    );
    assert_eq!(
        request_url("/weapi/song/lyric", "tok", false, CryptoApi::Weapi),
        "https://music.163.com/weapi/song/lyric"
    );
    assert_eq!(
        request_url("https://interface3.music.163.com/eapi/x", "tok", true, CryptoApi::Eapi),
        "https://interface3.music.163.com/eapi/x"
    );
}

#[test]
fn user_agents() {
    assert_eq!(user_agent_for("mobile", 9), user_agent(2));
    assert_eq!(user_agent_for("pc", 12), user_agent(10));
    assert_eq!(user_agent_for("", 15), user_agent(1));
    assert_eq!(user_agent_for("MyAgent/1.0", 3), "MyAgent/1.0");
    assert!(user_agent(8).contains("Macintosh"));
    for _ in 0..20 {
        let ua = choose_user_agent("pc");
        assert!((8..13).any(|i| user_agent(i) == ua));
        let ua = choose_user_agent("mobile");
        assert!((0..7).any(|i| user_agent(i) == ua));
    }
    assert_eq!(choose_user_agent("custom"), "custom");
    assert!(request_user_agent(CryptoApi::LinuxApi, "pc").contains("X11; Linux"));
}

#[test]
fn csrf_from_cookie_header() {
    let mut t = CsrfToken::new();
    t.set_csrf_from_cookies("os=pc; __csrf=abc123; MUSIC_U=xyz");
    assert_eq!(t.value, "abc123");
    t.set_csrf_from_cookies("os=pc; no token here");
    assert_eq!(t.value, "abc123");
    t.set_csrf_from_cookies("_csrf=last");
    assert_eq!(t.value, "last");
    t.set_csrf("manual".to_string());
    assert_eq!(t.value, "manual");
}

fn obj(fields: Vec<(&str, Json)>) -> Json {
    Json::Object(fields.into_iter().map(|(k, v)| (k.to_string(), v)).collect())
}

fn num(n: u64) -> Json {
    Json::Number(JsonNumber::PosInt(n))
}

#[test]
fn track_ids_parse() {
    // {"code":200,"playlist":{"trackIds":[{"id":5},{"x":1},{"id":7}]}}
    let j = obj(vec![
        ("code", num(200)),
        (
            "playlist",
            obj(vec![(
                "trackIds",
                Json::Array(vec![
                    obj(vec![("id", num(5))]),
                    obj(vec![("x", num(1))]),
                    obj(vec![("id", num(7))]),
                ]),
            )]),
        ),
    ]);
    assert_eq!(track_ids_from_json(&j).ok(), Some(vec![5, 7]));
    // {"code":200}
    let j = obj(vec![("code", num(200))]);
    assert_eq!(track_ids_from_json(&j).ok(), Some(vec![]));
    // {"code":404,"playlist":{"trackIds":[{"id":5}]}}
    let j = obj(vec![
        ("code", num(404)),
        ("playlist", obj(vec![("trackIds", Json::Array(vec![obj(vec![("id", num(5))])]))])),
    ]);
    assert!(track_ids_from_json(&j).is_err());
    // {"playlist":{}}
    let j = obj(vec![("playlist", obj(vec![]))]);
    assert!(track_ids_from_json(&j).is_err());
}

fn info(id: u64) -> SongInfo {
    SongInfo {
        id,
        name: String::new(),
        singer: String::new(),
        album: String::new(),
        album_id: 0,
        pic_url: String::new(),
        duration: 0,
        song_url: String::new(),
        copyright: SongCopyright::Unknown,
    }
}

#[test]
fn missing_tracks_in_batches() {
    let rest = remaining_track_ids(&vec![1, 2, 3, 4, 5], &vec![info(2), info(4)]);
    assert_eq!(rest, vec![1, 3, 5]);
    let ids: Vec<u64> = (0..1201).collect();
    let chunks = id_chunks(&ids, 500);
    assert_eq!(chunks.len(), 3);
    assert_eq!(chunks[0].len(), 500);
    assert_eq!(chunks[2], vec![1000u64, 1001, 1002, 1003, 1004, 1005, 1006, 1007, 1008, 1009, 1010, 1011, 1012, 1013, 1014, 1015, 1016, 1017, 1018, 1019, 1020, 1021, 1022, 1023, 1024, 1025, 1026, 1027, 1028, 1029, 1030, 1031, 1032, 1033, 1034, 1035, 1036, 1037, 1038, 1039, 1040, 1041, 1042, 1043, 1044, 1045, 1046, 1047, 1048, 1049, 1050, 1051, 1052, 1053, 1054, 1055, 1056, 1057, 1058, 1059, 1060, 1061, 1062, 1063, 1064, 1065, 1066, 1067, 1068, 1069, 1070, 1071, 1072, 1073, 1074, 1075, 1076, 1077, 1078, 1079, 1080, 1081, 1082, 1083, 1084, 1085, 1086, 1087, 1088, 1089, 1090, 1091, 1092, 1093, 1094, 1095, 1096, 1097, 1098, 1099, 1100, 1101, 1102, 1103, 1104, 1105, 1106, 1107, 1108, 1109, 1110, 1111, 1112, 1113, 1114, 1115, 1116, 1117, 1118, 1119, 1120, 1121, 1122, 1123, 1124, 1125, 1126, 1127, 1128, 1129, 1130, 1131, 1132, 1133, 1134, 1135, 1136, 1137, 1138, 1139, 1140, 1141, 1142, 1143, 1144, 1145, 1146, 1147, 1148, 1149, 1150, 1151, 1152, 1153, 1154, 1155, 1156, 1157, 1158, 1159, 1160, 1161, 1162, 1163, 1164, 1165, 1166, 1167, 1168, 1169, 1170, 1171, 1172, 1173, 1174, 1175, 1176, 1177, 1178, 1179, 1180, 1181, 1182, 1183, 1184, 1185, 1186, 1187, 1188, 1189, 1190, 1191, 1192, 1193, 1194, 1195, 1196, 1197, 1198, 1199, 1200]);
    let flat: Vec<u64> = chunks.concat();
    assert_eq!(flat, ids);
    assert!(id_chunks(&Vec::new(), 500).is_empty());
}

#[test]
fn subscription_requests() {
    assert_eq!(subscribe_path(true), "/weapi/playlist/subscribe");
    assert_eq!(subscribe_path(false), "/weapi/playlist/unsubscribe");
    assert!(subscribe_result(true, &Msg { code: 200, msg: String::new() }).is_ok());
    assert_eq!(
        subscribe_result(false, &Msg { code: 301, msg: "需要登录".to_string() }),
        Err("Failed to unsubscribe playlist: 需要登录".to_string())
    );
}

#[test]
fn addresses() {
    assert_eq!(qr_login_url("k-1"), "https://music.163.com/login?codekey=k-1");
    assert_eq!(image_url("http://p/a.jpg", 300, 200), "http://p/a.jpg?param=300y200");
}

use rustle::api::{
    ids_json, id_objects_json, like_song_request, post_body, search_request,
    set_param, song_lyric_request, songs_url_request, ApiRequest,
};
use rustle::model::{Method, SearchType as St};

fn params_of(r: &ApiRequest) -> Vec<(String, String)> {
    r.params.clone()
}

fn kv(k: &str, v: &str) -> (String, String) {
    (k.to_string(), v.to_string())
}

#[test]
fn request_parameters() {
    let r = search_request("jay", St::Albums, 50, 100);
    assert_eq!(r.path, "/weapi/cloudsearch/get/web");
    assert_eq!(r.method, Method::Post);
    assert!(r.append_csrf);
    assert_eq!(
        params_of(&r),
        vec![kv("s", "jay"), kv("type", "10"), kv("limit", "50"), kv("offset", "100"), kv("total", "true")]
    );
    let r = like_song_request(42, false, "tok");
    assert_eq!(
        params_of(&r),
        vec![kv("alg", "itembased"), kv("trackId", "42"), kv("like", "false"), kv("time", "3"), kv("csrf_token", "tok")]
    );
    let r = songs_url_request(&[1, 2], "999000");
    assert_eq!(r.crypto, CryptoApi::Eapi);
    assert_eq!(params_of(&r), vec![kv("ids", "[1,2]"), kv("br", "999000")]);
    assert_eq!(ids_json(&[]), "[]");
    assert_eq!(ids_json(&[7]), "[7]");
    assert_eq!(id_objects_json(&[3, 4]), r#"[{"id":3},{"id":4}]"#);
}

#[test]
fn set_param_replaces_or_adds() {
    let mut p = vec![kv("a", "1"), kv("b", "2")];
    set_param(&mut p, "b", "3");
    assert_eq!(p, vec![kv("a", "1"), kv("b", "3")]);
    set_param(&mut p, "c", "4");
    assert_eq!(p, vec![kv("a", "1"), kv("b", "3"), kv("c", "4")]);
}

#[test]
fn posted_bodies() {
    let body = post_body(&songs_url_request(&[1, 2], "999000"), "tok").unwrap();
    assert_eq!(
        body,
        "params=FA90B329E9614F79E79598F37DC2EDB430F8378D2A2796338F0BFDEAEF824A2219F77E9F1A8342E17AEDFE9CB0B8F4233BDE3B237939EF65A036D743CAE142B9DA61030FCA1D4D05E88D62447688D743CD7A821341FCFDFC5B4E04B87C2AA09CD998243A4C93A67612AD344EEE125BB33BA26168F81F79E3E559C7E232A25CC2FC0FC0B16087FF79539DA4ED3FD65C23"
    );
    let linux = ApiRequest {
        method: Method::Post,
        path: "/weapi/song/lyric".to_string(),
        params: vec![kv("id", "5")],
        crypto: CryptoApi::LinuxApi,
        ua: String::new(),
        append_csrf: true,
    };
    assert_eq!(
        post_body(&linux, "t").unwrap(),
        "eparams=08481575676CE2576A18E9C8471711D75C3BA80D286C9DC149759560E06D5761A575DFDE3334906097F343290AD4553F622302B1A0DD3CD7558D6F0CF67EC830C19867CA36DE78119D725473F4A00EBDF6EB307156FB274D5E095838B4D9E9F021FFE82B940A7BC4928E736A68CFDF8C"
    );
    let weapi = post_body(&song_lyric_request(5, "t"), "t").unwrap();
    assert!(weapi.starts_with("params=") && weapi.contains("&encSecKey="));
}

#[test]
fn csrf_token_skips_empty_tokens_and_stops_at_separators() {
    let mut t = CsrfToken::new();
    t.set_csrf_from_cookies("_csrf=;a=1; _csrf=tok|rest; _csrf=later");
    assert_eq!(t.value, "tok");
    t.set_csrf_from_cookies("x_csrf=ab$cd");
    assert_eq!(t.value, "ab");
    t.set_csrf_from_cookies("no token here");
    assert_eq!(t.value, "ab");
    t.set_csrf_from_cookies("_csrf=line\nbreak;");
    assert_eq!(t.value, "line\nbreak");
}

fn detail_with(track_count: u64, ids: &[u64]) -> rustle::model::PlayListDetail {
    rustle::model::PlayListDetail {
        id: 77,
        name: "P".to_string(),
        cover_img_url: String::new(),
        description: String::new(),
        create_time: 0,
        track_update_time: 0,
        creator_id: 0,
        creator_nickname: String::new(),
        creator_avatar_url: String::new(),
        track_count,
        subscribed: false,
        songs: ids.iter().map(|&i| info(i)).collect(),
    }
}

#[test]
fn complete_playlists_need_no_more_requests() {
    let (_, step) = DetailLoader::start(detail_with(2, &[1, 2]));
    assert!(matches!(step, DetailStep::Done));
}

#[test]
fn missing_songs_are_fetched_in_batches() {
    let (mut l, step) = DetailLoader::start(detail_with(1203, &[1, 2, 3]));
    assert!(matches!(step, DetailStep::FetchTrackIds(77)));
    let track_ids: Vec<u64> = (1..=1203).collect();
    let first = match l.track_ids_loaded(&track_ids) {
        DetailStep::FetchSongs(c) => c,
        other => panic!("expected a batch, got {:?}", other),
    };
    assert_eq!(first.len(), 500);
    assert_eq!(first[0], 4);
    let songs: Vec<SongInfo> = first.iter().map(|&i| info(i)).collect();
    let second = match l.songs_loaded(Some(songs)) {
        DetailStep::FetchSongs(c) => c,
        other => panic!("expected a batch, got {:?}", other),
    };
    assert_eq!(second[0], 504);
    assert_eq!(l.detail.songs.len(), 503);
    // A failed batch adds nothing; the last batch is asked for.
    let third = match l.songs_loaded(None) {
        DetailStep::FetchSongs(c) => c,
        other => panic!("expected a batch, got {:?}", other),
    };
    assert_eq!(third.len(), 200);
    assert!(matches!(l.songs_loaded(None), DetailStep::Done));
    assert_eq!(l.detail.songs.len(), 503);
}
