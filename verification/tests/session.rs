use rustle::model::{BannersInfo, TargetType};
use rustle::session::{
    auto_login_failed, banner_action, qr_status_from_code, subscribe_message, subscribe_request,
    to_signed_decimal, AutoLoginStep, BannerAction, Carousel, FavoriteRequest, LikedSongs,
    LoginCommand, LoginState, QrLoginStatus, SubscribeRequest,
};

#[test]
fn qr_codes_map_to_statuses() {
    assert!(matches!(qr_status_from_code(800), QrLoginStatus::Expired));
    assert!(matches!(qr_status_from_code(801), QrLoginStatus::WaitingForScan));
    assert!(matches!(qr_status_from_code(802), QrLoginStatus::WaitingForConfirm));
    assert!(matches!(qr_status_from_code(803), QrLoginStatus::Success));
    match qr_status_from_code(-12) {
        QrLoginStatus::Error(e) => assert_eq!(e, "Unknown code: -12"),
        _ => panic!("expected error"),
    }
    match qr_status_from_code(500) {
        QrLoginStatus::Error(e) => assert_eq!(e, "Unknown code: 500"),
        _ => panic!("expected error"),
    }
    assert_eq!(to_signed_decimal(i32::MIN), "-2147483648");
    assert_eq!(to_signed_decimal(0), "0");
}

#[test]
fn auto_login_retries_three_times() {
    assert_eq!(auto_login_failed(0), AutoLoginStep::RetryAfterDelay(1));
    assert_eq!(auto_login_failed(2), AutoLoginStep::RetryAfterDelay(3));
    assert_eq!(auto_login_failed(3), AutoLoginStep::LoadHomepage);
}

#[test]
fn qr_login_flow() {
    let mut l = LoginState::new();
    assert!(matches!(l.request_qr_code(), LoginCommand::CreateQrCode));
    assert!(l.popup_open);
    assert_eq!(l.qr_status.as_deref(), Some("正在生成二维码..."));
    match l.qr_code_ready("/tmp/qr.png".to_string(), "key1".to_string()) {
        LoginCommand::CheckQrStatus(k) => assert_eq!(k, "key1"),
        _ => panic!("expected check"),
    }
    assert!(matches!(l.check_qr_status(&"old".to_string()), LoginCommand::Nothing));
    assert!(matches!(l.check_qr_status(&"key1".to_string()), LoginCommand::CheckQrStatus(_)));
    match l.qr_login_result(QrLoginStatus::WaitingForScan) {
        LoginCommand::CheckQrStatusAfterDelay(k) => assert_eq!(k, "key1"),
        _ => panic!("expected poll"),
    }
    assert_eq!(l.qr_status.as_deref(), Some("等待扫码..."));
    assert!(matches!(l.qr_login_result(QrLoginStatus::Success), LoginCommand::FetchLoginStatus));
    l.login_success();
    assert!(l.logged_in);
    assert!(!l.popup_open);
    l.logout();
    assert!(!l.logged_in);
}

#[test]
fn qr_errors_close_popup() {
    let mut l = LoginState::new();
    l.request_qr_code();
    match l.qr_login_result(QrLoginStatus::Error("boom".to_string())) {
        LoginCommand::ShowError(e) => assert_eq!(e, "登录失败: boom"),
        _ => panic!("expected error"),
    }
    assert!(!l.popup_open);
    assert_eq!(l.qr_status.as_deref(), Some("登录错误: boom"));
    l.request_qr_code();
    match l.qr_login_result(QrLoginStatus::Expired) {
        LoginCommand::ShowError(e) => assert_eq!(e, "二维码已过期"),
        _ => panic!("expected error"),
    }
    assert!(!l.popup_open);
}

#[test]
fn toggle_popup_requests_code_once() {
    let mut l = LoginState::new();
    assert!(l.toggle_login_popup());
    assert!(!l.toggle_login_popup());
    l.qr_code_path = Some("p".to_string());
    assert!(!l.toggle_login_popup());
    assert!(l.popup_open);
}

#[test]
fn likes_toggle() {
    let mut likes = LikedSongs::new();
    assert_eq!(likes.favorite_request(false, 5), FavoriteRequest::NeedLogin);
    assert_eq!(likes.favorite_request(true, 5), FavoriteRequest::SetLike(5, true));
    likes.set_liked(5, true);
    assert!(likes.contains(5));
    assert_eq!(likes.favorite_request(true, 5), FavoriteRequest::SetLike(5, false));
    likes.set_liked(5, false);
    assert!(!likes.contains(5));
    likes.replace_all(&vec![1, 2, 2, 3]);
    assert!(likes.contains(2));
    assert_eq!(likes.ids.len(), 3);
}

#[test]
fn subscriptions() {
    assert_eq!(subscribe_request(false, false, -9), SubscribeRequest::NeedLogin);
    assert_eq!(subscribe_request(true, false, -9), SubscribeRequest::Change(9, true));
    assert_eq!(subscribe_request(true, true, -9), SubscribeRequest::Change(9, false));
    assert_eq!(subscribe_message(true), "已收藏歌单");
    assert_eq!(subscribe_message(false), "已取消收藏");
}

#[test]
fn banner_actions() {
    let banners = vec![
        BannersInfo {
            pic: "p".to_string(),
            target_id: 77,
            target_type: TargetType::Song,
            type_title: "新歌".to_string(),
        },
        BannersInfo {
            pic: "p".to_string(),
            target_id: 78,
            target_type: TargetType::Album,
            type_title: "专辑".to_string(),
        },
    ];
    assert_eq!(banner_action(&banners, 0), BannerAction::Song(77));
    assert_eq!(banner_action(&banners, 1), BannerAction::Nothing);
    assert_eq!(banner_action(&banners, 5), BannerAction::Nothing);
}

#[test]
fn carousel_wraps_both_ways() {
    let mut c = Carousel::new();
    c.tick(3);
    c.tick(3);
    assert_eq!(c.current, 2);
    c.tick(3);
    assert_eq!(c.current, 0);
    assert_eq!(c.last, 2);
    c.navigate(-1, 3);
    assert_eq!(c.current, 2);
    assert_eq!(c.direction, -1);
    c.navigate(1, 3);
    assert_eq!(c.current, 0);
    c.navigate(-7, 3);
    assert_eq!(c.current, 2);
    let before = c;
    c.navigate(1, 0);
    c.tick(0);
    assert_eq!(c, before);
}
