use rustle::json::{Json, JsonNumber};
use rustle::model::{
    to_banners_info, to_login_info, to_lyric, to_message, to_mix_detail, to_msg, to_search_response,
    to_song_id_list, to_song_info, to_song_list, to_song_url, to_toplist, to_unikey, ModelError,
    Parse, SearchType, SongCopyright, SongInfo, TargetType,
};

#[test]
fn song_info_of_song_detail() {
    let json = r#"{"code":200,"songs":[
        {"id":11,"name":"A","ar":[{"name":"X"},{"name":"Y"}],"al":{"id":2,"name":"Al","picUrl":"p"},"dt":1000},
        {"id":12,"name":"B","ar":[],"al":{"id":3},"dt":2000}]}"#;
    let songs = to_song_info(json.to_string(), Parse::Usl).unwrap();
    assert_eq!(songs.len(), 2);
    assert_eq!(songs[0].id, 11);
    assert_eq!(songs[0].singer, "X");
    assert_eq!(songs[0].album, "Al");
    assert_eq!(songs[0].pic_url, "p");
    assert_eq!(songs[0].duration, 1000);
    assert_eq!(songs[1].singer, "unknown");
    assert_eq!(songs[1].album, "unknown");
    assert_eq!(songs[1].pic_url, "");
}

#[test]
fn song_info_errors() {
    assert_eq!(to_song_info("not json".to_string(), Parse::Usl).err(), Some(ModelError::InvalidJson));
    assert_eq!(
        to_song_info(r#"{"code":301}"#.to_string(), Parse::Usl).err(),
        Some(ModelError::Status)
    );
    assert_eq!(
        to_song_info(r#"{"songs":[]}"#.to_string(), Parse::Usl).err(),
        Some(ModelError::MissingField)
    );
    assert_eq!(
        to_song_info(r#"{"code":200,"songs":[{"id":1}]}"#.to_string(), Parse::Usl).err(),
        Some(ModelError::MissingField)
    );
}

#[test]
fn song_urls_skip_entries_without_address() {
    let json = r#"{"code":200,"data":[{"id":1,"url":"http://a","br":320000},{"id":2,"url":null,"br":0}]}"#;
    let urls = to_song_url(json.to_string()).unwrap();
    assert_eq!(urls.len(), 1);
    assert_eq!(urls[0].id, 1);
    assert_eq!(urls[0].url, "http://a");
    assert_eq!(urls[0].rate, 320000);
}

#[test]
fn lyric_lines_drop_empty() {
    let json = r#"{"code":200,"lrc":{"lyric":"[00:01]a\n\n[00:02]b\n"},"tlyric":{"lyric":""}}"#;
    let l = to_lyric(json.to_string()).unwrap();
    assert_eq!(l.lyric, vec!["[00:01]a".to_string(), "[00:02]b".to_string()]);
    assert!(l.tlyric.is_empty());
}

#[test]
fn song_lists_of_user_playlists() {
    let json = r#"{"code":200,"playlist":[{"id":5,"name":"Fav","coverImgUrl":"c","creator":{"nickname":"me"}}]}"#;
    let lists = to_song_list(json.to_string(), Parse::Usl).unwrap();
    assert_eq!(lists.len(), 1);
    assert_eq!(lists[0].id, 5);
    assert_eq!(lists[0].author, "me");
    assert_eq!(lists[0].cover_img_url, "c");
}

#[test]
fn login_info_success_and_message() {
    let json = r#"{"code":200,"profile":{"userId":77,"nickname":"nick","avatarUrl":"av","vipType":11}}"#;
    let l = to_login_info(json.to_string()).unwrap();
    assert_eq!(l.uid, 77);
    assert_eq!(l.nickname, "nick");
    assert_eq!(l.vip_type, 11);
    let l = to_login_info(r#"{"code":301,"msg":"需要登录"}"#.to_string()).unwrap();
    assert_eq!(l.code, 301);
    assert_eq!(l.msg, "需要登录");
    assert_eq!(l.uid, 0);
}

#[test]
fn messages_and_unikey() {
    let m = to_msg(r#"{"code":200}"#.to_string()).unwrap();
    assert_eq!(m.code, 200);
    let m = to_message(r#"{"code":801,"message":"等待扫码"}"#.to_string()).unwrap();
    assert_eq!(m.code, 801);
    assert_eq!(m.msg, "等待扫码");
    assert_eq!(to_unikey(r#"{"code":200,"unikey":"k1"}"#.to_string()).unwrap(), "k1");
    assert_eq!(to_unikey(r#"{"code":400}"#.to_string()).err(), Some(ModelError::Status));
}

#[test]
fn banners_and_toplist() {
    let json = r#"{"code":200,"banners":[{"imageUrl":"i","targetId":9,"targetType":1,"typeTitle":"新歌首发"},{"imageUrl":"j","targetId":3,"targetType":10}]}"#;
    let b = to_banners_info(json.to_string()).unwrap();
    assert_eq!(b.len(), 2);
    assert_eq!(b[0].target_type, TargetType::Song);
    assert_eq!(b[1].target_type, TargetType::Album);
    assert_eq!(b[1].type_title, "");
    assert_eq!(TargetType::from(3000), TargetType::Unknown);
    let t = to_toplist(r#"{"code":200,"list":[{"id":1,"name":"Hot"}]}"#.to_string()).unwrap();
    assert_eq!(t[0].name, "Hot");
    assert_eq!(t[0].update, "");
}

#[test]
fn liked_ids() {
    assert_eq!(to_song_id_list(r#"{"code":200,"ids":[3,4]}"#.to_string()).unwrap(), vec![3, 4]);
}

#[test]
fn search_responses() {
    let json = r#"{"code":200,"result":{"songCount":42,"songs":[{"id":1,"name":"S","ar":[{"name":"P"}],"dt":3000}]}}"#;
    let r = to_search_response(json.to_string(), SearchType::Songs).unwrap();
    assert_eq!(r.song_count, 42);
    assert_eq!(r.songs[0].album_id, 0);
    assert_eq!(r.songs[0].singer, "P");
    let json = r#"{"code":200,"result":{"artistCount":2,"artists":[{"id":8,"name":"Z"}]}}"#;
    let r = to_search_response(json.to_string(), SearchType::Artists).unwrap();
    assert_eq!(r.album_count, 2);
    assert_eq!(r.albums[0].author, "");
    assert!(to_search_response(r#"{"code":500}"#.to_string(), SearchType::Songs).is_err());
}

#[test]
fn mix_detail_with_privileges() {
    // {"code":200,"playlist":{"id":100,"name":"Mix","coverImgUrl":"c","createTime":1,
    //  "trackUpdateTime":2,"tracks":[{"id":1,"name":"a","ar":[{"name":"x"}],"al":{"id":5},
    //  "dt":1000}]},"privileges":[{"st":-200,"fee":0}]}
    let obj = |fields: Vec<(&str, Json)>| {
        Json::Object(fields.into_iter().map(|(k, v)| (k.to_string(), v)).collect())
    };
    let num = |n: u64| Json::Number(JsonNumber::PosInt(n));
    let text = |t: &str| Json::Str(t.to_string());
    let track = obj(vec![
        ("id", num(1)),
        ("name", text("a")),
        ("ar", Json::Array(vec![obj(vec![("name", text("x"))])])),
        ("al", obj(vec![("id", num(5))])),
        ("dt", num(1000)),
    ]);
    let json = obj(vec![
        ("code", num(200)),
        (
            "playlist",
            obj(vec![
                ("id", num(100)),
                ("name", text("Mix")),
                ("coverImgUrl", text("c")),
                ("createTime", num(1)),
                ("trackUpdateTime", num(2)),
                ("tracks", Json::Array(vec![track])),
            ]),
        ),
        (
            "privileges",
            Json::Array(vec![obj(vec![
                ("st", Json::Number(JsonNumber::NegInt(-200))),
                ("fee", num(0)),
            ])]),
        ),
    ]);
    let d = to_mix_detail(&json).unwrap();
    assert_eq!(d.id, 100);
    assert_eq!(d.track_count, 1);
    assert!(!d.subscribed);
    assert_eq!(d.songs[0].copyright, SongCopyright::Unavailable);
    assert!(!d.songs[0].copyright.playable());
    assert!(SongCopyright::VipOnly.playable());
}

#[test]
fn search_type_codes_and_defaults() {
    assert_eq!(SearchType::Playlists.as_str(), "1000");
    let s = SongInfo::default();
    assert_eq!(s.id, 0);
}
