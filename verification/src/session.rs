//! The account session with the streaming service: QR code login, the
//! automatic login at start-up, liked songs, playlist subscriptions, and the
//! home page banner carousel.

use vstd::prelude::*;
use vstd::std_specs::hash::*;

use std::collections::HashSet;

use crate::model::{BannersInfo, TargetType};
use crate::text::{concat_str, decimal, push_decimal, to_decimal};

verus! {

broadcast use vstd::std_specs::hash::group_hash_axioms;

/// Automatic login attempts after the first one.
pub const MAX_LOGIN_RETRIES: u8 = 3;

/// QR login status.
#[derive(Debug)]
pub enum QrLoginStatus {
    /// Waiting for scan (801)
    WaitingForScan,
    /// Scanned, waiting for confirmation (802)
    WaitingForConfirm,
    /// Expired (800)
    Expired,
    /// Success (803)
    Success,
    /// Error
    Error(String),
}

/// A QR login status as plain values.
pub enum QrStatusView {
    WaitingForScan,
    WaitingForConfirm,
    Expired,
    Success,
    Error(Seq<char>),
}

impl View for QrLoginStatus {
    type V = QrStatusView;

    open spec fn view(&self) -> QrStatusView {
        match self {
            QrLoginStatus::WaitingForScan => QrStatusView::WaitingForScan,
            QrLoginStatus::WaitingForConfirm => QrStatusView::WaitingForConfirm,
            QrLoginStatus::Expired => QrStatusView::Expired,
            QrLoginStatus::Success => QrStatusView::Success,
            QrLoginStatus::Error(e) => QrStatusView::Error(e@),
        }
    }
}

/// A signed number in decimal, with a minus sign when negative.
pub open spec fn signed_decimal(n: int) -> Seq<char> {
    if n < 0 {
        seq!['-'] + decimal((-n) as nat)
    } else {
        decimal(n as nat)
    }
}

/// Writes a signed number in decimal.
pub fn to_signed_decimal(n: i32) -> (r: String)
    ensures
        r@ == signed_decimal(n as int),
{
    if n < 0 {
        let mut s = String::new();
        crate::strings::string_push(&mut s, '-');
        let m: i64 = -(n as i64);
        push_decimal(&mut s, m as u64);
        assert(s@ =~= seq!['-'] + decimal((-n) as nat));
        s
    } else {
        to_decimal(n as u64)
    }
}

/// The status that a code of the QR check stands for.
pub open spec fn qr_status_of_code(code: i32) -> QrStatusView {
    if code == 800 {
        QrStatusView::Expired
    } else if code == 801 {
        QrStatusView::WaitingForScan
    } else if code == 802 {
        QrStatusView::WaitingForConfirm
    } else if code == 803 {
        QrStatusView::Success
    } else {
        QrStatusView::Error("Unknown code: "@ + signed_decimal(code as int))
    }
}

/// Reads the code that the QR check answered with.
pub fn qr_status_from_code(code: i32) -> (r: QrLoginStatus)
    ensures
        r@ == qr_status_of_code(code),
{
    proof {
        reveal_strlit("Unknown code: ");
    }
    if code == 800 {
        QrLoginStatus::Expired
    } else if code == 801 {
        QrLoginStatus::WaitingForScan
    } else if code == 802 {
        QrLoginStatus::WaitingForConfirm
    } else if code == 803 {
        QrLoginStatus::Success
    } else {
        let n = to_signed_decimal(code);
        QrLoginStatus::Error(concat_str("Unknown code: ", n.as_str()))
    }
}

/// What follows a failed automatic login.
#[derive(Debug, Clone, Copy, PartialEq, Eq, Structural)]
pub enum AutoLoginStep {
    /// Wait a moment, then try again; the attempt number is given.
    RetryAfterDelay(u8),
    /// Give up (the saved cookie is kept for the next start) and load the
    /// home page without an account.
    LoadHomepage,
}

/// A failed automatic login is retried up to the limit.
pub fn auto_login_failed(retry: u8) -> (r: AutoLoginStep)
    ensures
        retry < MAX_LOGIN_RETRIES ==> r == AutoLoginStep::RetryAfterDelay((retry + 1) as u8),
        retry >= MAX_LOGIN_RETRIES ==> r == AutoLoginStep::LoadHomepage,
{
    if retry < MAX_LOGIN_RETRIES {
        AutoLoginStep::RetryAfterDelay(retry + 1)
    } else {
        AutoLoginStep::LoadHomepage
    }
}

/// What the login logic asks the shell to do.
#[derive(Debug)]
pub enum LoginCommand {
    Nothing,
    /// Ask the service for a new QR code.
    CreateQrCode,
    /// Ask the service about the QR code with this key now.
    CheckQrStatus(String),
    /// Ask again about the QR code with this key after a pause.
    CheckQrStatusAfterDelay(String),
    /// The code was confirmed: fetch the account's login status.
    FetchLoginStatus,
    /// Show an error message.
    ShowError(String),
}

/// A login command as plain values.
pub enum LoginCommandView {
    Nothing,
    CreateQrCode,
    CheckQrStatus(Seq<char>),
    CheckQrStatusAfterDelay(Seq<char>),
    FetchLoginStatus,
    ShowError(Seq<char>),
}

impl View for LoginCommand {
    type V = LoginCommandView;

    open spec fn view(&self) -> LoginCommandView {
        match self {
            LoginCommand::Nothing => LoginCommandView::Nothing,
            LoginCommand::CreateQrCode => LoginCommandView::CreateQrCode,
            LoginCommand::CheckQrStatus(k) => LoginCommandView::CheckQrStatus(k@),
            LoginCommand::CheckQrStatusAfterDelay(k) => LoginCommandView::CheckQrStatusAfterDelay(k@),
            LoginCommand::FetchLoginStatus => LoginCommandView::FetchLoginStatus,
            LoginCommand::ShowError(e) => LoginCommandView::ShowError(e@),
        }
    }
}

/// The login popup and the session flag.
#[derive(Debug)]
pub struct LoginState {
    pub logged_in: bool,
    pub popup_open: bool,
    pub qr_code_path: Option<String>,
    pub qr_unikey: Option<String>,
    pub qr_status: Option<String>,
}

/// The login state as plain values.
pub struct LoginView {
    pub logged_in: bool,
    pub popup_open: bool,
    pub qr_code_path: Option<Seq<char>>,
    pub qr_unikey: Option<Seq<char>>,
    pub qr_status: Option<Seq<char>>,
}

pub open spec fn opt_text(o: Option<String>) -> Option<Seq<char>> {
    match o {
        Some(s) => Some(s@),
        None => None,
    }
}

impl View for LoginState {
    type V = LoginView;

    open spec fn view(&self) -> LoginView {
        LoginView {
            logged_in: self.logged_in,
            popup_open: self.popup_open,
            qr_code_path: opt_text(self.qr_code_path),
            qr_unikey: opt_text(self.qr_unikey),
            qr_status: opt_text(self.qr_status),
        }
    }
}

/// The command that polls the current QR key again after a pause.
pub open spec fn poll_again(key: Option<Seq<char>>) -> LoginCommandView {
    match key {
        Some(k) => LoginCommandView::CheckQrStatusAfterDelay(k),
        None => LoginCommandView::Nothing,
    }
}

/// The login state and command after a QR check answered.
pub open spec fn after_qr_result(l: LoginView, s: QrStatusView) -> (LoginView, LoginCommandView) {
    match s {
        QrStatusView::WaitingForScan => (
            LoginView { qr_status: Some("等待扫码..."@), ..l },
            poll_again(l.qr_unikey),
        ),
        QrStatusView::WaitingForConfirm => (
            LoginView { qr_status: Some("已扫码，请在App中确认登录"@), ..l },
            poll_again(l.qr_unikey),
        ),
        QrStatusView::Expired => (
            LoginView { qr_status: Some("二维码已过期，请刷新"@), popup_open: false, ..l },
            LoginCommandView::ShowError("二维码已过期"@),
        ),
        QrStatusView::Success => (
            LoginView { qr_status: Some("登录成功！"@), ..l },
            LoginCommandView::FetchLoginStatus,
        ),
        QrStatusView::Error(e) => (
            LoginView { qr_status: Some("登录错误: "@ + e), popup_open: false, ..l },
            LoginCommandView::ShowError("登录失败: "@ + e),
        ),
    }
}

fn clone_opt(o: &Option<String>) -> (r: Option<String>)
    ensures
        opt_text(r) == opt_text(*o),
{
    match o {
        Some(s) => Some(s.clone()),
        None => None,
    }
}

impl LoginState {
    /// Logged out, popup closed, no QR code.
    pub fn new() -> (r: Self)
        ensures
            !r@.logged_in,
            !r@.popup_open,
            r@.qr_code_path is None,
            r@.qr_unikey is None,
            r@.qr_status is None,
    {
        LoginState {
            logged_in: false,
            popup_open: false,
            qr_code_path: None,
            qr_unikey: None,
            qr_status: None,
        }
    }

    /// Opens the popup and asks for a fresh QR code, dropping the old one.
    pub fn request_qr_code(&mut self) -> (r: LoginCommand)
        ensures
            final(self)@ == (LoginView {
                popup_open: true,
                qr_status: Some("正在生成二维码..."@),
                qr_code_path: None,
                qr_unikey: None,
                ..old(self)@
            }),
            r@ == LoginCommandView::CreateQrCode,
    {
        self.popup_open = true;
        self.qr_status = Some("正在生成二维码...".to_owned());
        self.qr_code_path = None;
        self.qr_unikey = None;
        LoginCommand::CreateQrCode
    }

    /// A QR code arrived: it is shown and its key is checked at once.
    pub fn qr_code_ready(&mut self, path: String, unikey: String) -> (r: LoginCommand)
        ensures
            final(self)@ == (LoginView {
                qr_code_path: Some(path@),
                qr_unikey: Some(unikey@),
                qr_status: Some("请使用网易云音乐App扫码登录"@),
                ..old(self)@
            }),
            r@ == LoginCommandView::CheckQrStatus(unikey@),
    {
        let key = unikey.clone();
        self.qr_code_path = Some(path);
        self.qr_unikey = Some(unikey);
        self.qr_status = Some("请使用网易云音乐App扫码登录".to_owned());
        LoginCommand::CheckQrStatus(key)
    }

    /// A check of a QR key is due: only the key currently shown is checked;
    /// a stale key (the code was replaced meanwhile) is dropped.
    pub fn check_qr_status(&self, unikey: &String) -> (r: LoginCommand)
        ensures
            self@.qr_unikey == Some(unikey@) ==> r@ == LoginCommandView::CheckQrStatus(unikey@),
            self@.qr_unikey != Some(unikey@) ==> r@ == LoginCommandView::Nothing,
    {
        match &self.qr_unikey {
            Some(k) => {
                if *k == *unikey {
                    LoginCommand::CheckQrStatus(unikey.clone())
                } else {
                    LoginCommand::Nothing
                }
            },
            None => LoginCommand::Nothing,
        }
    }

    /// The QR check answered: the popup shows the status; waiting states
    /// poll again, expiry and errors close the popup with a message, and a
    /// confirmed code fetches the account.
    pub fn qr_login_result(&mut self, status: QrLoginStatus) -> (r: LoginCommand)
        ensures
            (final(self)@, r@) == after_qr_result(old(self)@, status@),
    {
        match status {
            QrLoginStatus::WaitingForScan => {
                self.qr_status = Some("等待扫码...".to_owned());
                match clone_opt(&self.qr_unikey) {
                    Some(k) => LoginCommand::CheckQrStatusAfterDelay(k),
                    None => LoginCommand::Nothing,
                }
            },
            QrLoginStatus::WaitingForConfirm => {
                self.qr_status = Some("已扫码，请在App中确认登录".to_owned());
                match clone_opt(&self.qr_unikey) {
                    Some(k) => LoginCommand::CheckQrStatusAfterDelay(k),
                    None => LoginCommand::Nothing,
                }
            },
            QrLoginStatus::Expired => {
                self.qr_status = Some("二维码已过期，请刷新".to_owned());
                self.popup_open = false;
                LoginCommand::ShowError("二维码已过期".to_owned())
            },
            QrLoginStatus::Success => {
                self.qr_status = Some("登录成功！".to_owned());
                LoginCommand::FetchLoginStatus
            },
            QrLoginStatus::Error(err) => {
                self.qr_status = Some(concat_str("登录错误: ", err.as_str()));
                self.popup_open = false;
                LoginCommand::ShowError(concat_str("登录失败: ", err.as_str()))
            },
        }
    }

    /// The account logged in: the popup closes.
    pub fn login_success(&mut self)
        ensures
            final(self)@ == (LoginView { logged_in: true, popup_open: false, ..old(self)@ }),
    {
        self.logged_in = true;
        self.popup_open = false;
    }

    /// The account logged out.
    pub fn logout(&mut self)
        ensures
            final(self)@ == (LoginView { logged_in: false, ..old(self)@ }),
    {
        self.logged_in = false;
    }

    /// Opens or closes the popup; opening it without a QR code asks for one.
    pub fn toggle_login_popup(&mut self) -> (r: bool)
        ensures
            final(self)@ == (LoginView { popup_open: !old(self)@.popup_open, ..old(self)@ }),
            r == (!old(self)@.popup_open && old(self)@.qr_code_path is None),
    {
        self.popup_open = !self.popup_open;
        self.popup_open && self.qr_code_path.is_none()
    }
}

/// The songs the account likes, by service id.
#[derive(Debug)]
pub struct LikedSongs {
    pub ids: HashSet<u64>,
}

impl View for LikedSongs {
    type V = Set<u64>;

    open spec fn view(&self) -> Set<u64> {
        self.ids@
    }
}

/// What asking to toggle a like leads to.
#[derive(Debug, Clone, Copy, PartialEq, Eq, Structural)]
pub enum FavoriteRequest {
    /// Not logged in: a warning is shown and nothing is sent.
    NeedLogin,
    /// Ask the service to set the like of the song to the given value.
    SetLike(u64, bool),
}

impl LikedSongs {
    pub fn new() -> (r: Self)
        ensures
            r@ == Set::<u64>::empty(),
    {
        LikedSongs { ids: HashSet::new() }
    }

    /// Whether the song is liked.
    pub fn contains(&self, id: u64) -> (r: bool)
        ensures
            r == self@.contains(id),
    {
        self.ids.contains(&id)
    }

    /// The service confirmed a like or an unlike.
    pub fn set_liked(&mut self, id: u64, liked: bool)
        ensures
            liked ==> final(self)@ == old(self)@.insert(id),
            !liked ==> final(self)@ == old(self)@.remove(id),
    {
        if liked {
            self.ids.insert(id);
        } else {
            self.ids.remove(&id);
        }
    }

    /// Takes the full list of liked songs.
    pub fn replace_all(&mut self, ids: &Vec<u64>)
        ensures
            final(self)@ == ids@.to_set(),
    {
        let mut set: HashSet<u64> = HashSet::new();
        let mut i: usize = 0;
        while i < ids.len()
            invariant
                i <= ids.len(),
                set@ == ids@.take(i as int).to_set(),
            decreases ids.len() - i,
        {
            let ghost before = set@;
            set.insert(ids[i]);
            assert(ids@.take(i + 1) =~= ids@.take(i as int).push(ids@[i as int]));
            assert(set@ =~= ids@.take(i + 1).to_set()) by {
                ids@.take(i as int).lemma_push_to_set_commute(ids@[i as int]);
            }
            i = i + 1;
        }
        assert(ids@.take(ids.len() as int) =~= ids@);
        self.ids = set;
    }

    /// The request for a like toggle: the opposite of the current like.
    pub fn favorite_request(&self, logged_in: bool, id: u64) -> (r: FavoriteRequest)
        ensures
            !logged_in ==> r == FavoriteRequest::NeedLogin,
            logged_in ==> r == FavoriteRequest::SetLike(id, !self@.contains(id)),
    {
        if !logged_in {
            return FavoriteRequest::NeedLogin;
        }
        FavoriteRequest::SetLike(id, !self.contains(id))
    }
}

/// Liking a song and then unliking it leaves the likes as they were,
/// where the song was not liked before.
pub proof fn lemma_like_unlike_restores(likes: Set<u64>, id: u64)
    requires
        !likes.contains(id),
    ensures
        likes.insert(id).remove(id) == likes,
{
    assert(likes.insert(id).remove(id) =~= likes);
}

/// What a toggle of a playlist subscription asks for.
#[derive(Debug, Clone, Copy, PartialEq, Eq, Structural)]
pub enum SubscribeRequest {
    NeedLogin,
    /// Ask the service to set the subscription of the playlist (by service
    /// id) to the given value.
    Change(u64, bool),
}

/// The request for a subscription toggle of a playlist of the service,
/// which the queue and pages know by its negated id.
pub fn subscribe_request(logged_in: bool, subscribed: bool, playlist_id: i64) -> (r: SubscribeRequest)
    requires
        playlist_id != i64::MIN,
    ensures
        !logged_in ==> r == SubscribeRequest::NeedLogin,
        logged_in ==> r == SubscribeRequest::Change((-playlist_id) as u64, !subscribed),
{
    if !logged_in {
        return SubscribeRequest::NeedLogin;
    }
    SubscribeRequest::Change((-playlist_id) as u64, !subscribed)
}

/// The message shown after a subscription changed.
pub fn subscribe_message(subscribed: bool) -> (r: &'static str)
    ensures
        subscribed ==> r@ == "已收藏歌单"@,
        !subscribed ==> r@ == "已取消收藏"@,
{
    if subscribed {
        "已收藏歌单"
    } else {
        "已取消收藏"
    }
}

/// What a click on a banner does.
#[derive(Debug, Clone, Copy, PartialEq, Eq, Structural)]
pub enum BannerAction {
    /// Play (or like) the song with this service id.
    Song(u64),
    /// Banners of other targets do nothing.
    Nothing,
}

/// The action of a banner: only song banners do something.
pub fn banner_action(banners: &Vec<BannersInfo>, index: usize) -> (r: BannerAction)
    ensures
        index < banners@.len() && banners@[index as int].target_type == TargetType::Song ==> r
            == BannerAction::Song(banners@[index as int].target_id),
        !(index < banners@.len() && banners@[index as int].target_type == TargetType::Song) ==> r
            == BannerAction::Nothing,
{
    if index < banners.len() {
        match banners[index].target_type {
            TargetType::Song => BannerAction::Song(banners[index].target_id),
            _ => BannerAction::Nothing,
        }
    } else {
        BannerAction::Nothing
    }
}

/// The banner carousel of the home page.
#[derive(Debug, Clone, Copy, PartialEq, Eq, Structural)]
pub struct Carousel {
    pub current: usize,
    pub last: usize,
    /// The direction of the last move: 1 forwards, negative backwards.
    pub direction: i32,
}

/// Euclidean remainder: the number in `0..m` that differs from `a` by a
/// multiple of `m`.
pub open spec fn wrap_index(a: int, m: int) -> int {
    a % m
}

impl Carousel {
    pub fn new() -> (r: Self)
        ensures
            r.current == 0,
            r.last == 0,
            r.direction == 1,
    {
        Carousel { current: 0, last: 0, direction: 1 }
    }

    /// The timer moves the carousel one banner on, wrapping at the end.
    pub fn tick(&mut self, len: usize)
        requires
            old(self).current < usize::MAX,
        ensures
            len == 0 ==> *final(self) == *old(self),
            len > 0 ==> *final(self) == (Carousel {
                last: old(self).current,
                current: ((old(self).current + 1) % (len as int)) as usize,
                direction: 1,
            }),
    {
        if len == 0 {
            return;
        }
        self.last = self.current;
        self.current = (self.current + 1) % len;
        self.direction = 1;
    }

    /// Moves the carousel by `delta` banners, wrapping in both directions.
    pub fn navigate(&mut self, delta: i32, len: usize)
        requires
            len <= i32::MAX,
            old(self).current <= i32::MAX,
            i32::MIN <= old(self).current + delta <= i32::MAX,
        ensures
            len == 0 ==> *final(self) == *old(self),
            len > 0 ==> *final(self) == (Carousel {
                last: old(self).current,
                current: wrap_index(old(self).current + delta, len as int) as usize,
                direction: delta,
            }),
    {
        if len == 0 {
            return;
        }
        let m = len as i64;
        let s = (self.current as i64) + (delta as i64);
        let r: i64 = if s >= 0 {
            s % m
        } else {
            let k = (-s) % m;
            if k == 0 {
                0
            } else {
                m - k
            }
        };
        proof {
            let si = s as int;
            let mi = m as int;
            if si < 0 {
                let k = (-si) % mi;
                assert((-si) == mi * ((-si) / mi) + k) by (nonlinear_arith)
                    requires
                        mi > 0,
                        -si >= 0,
                        k == (-si) % mi,
                ;
                let q = (-si) / mi;
                if k == 0 {
                    assert(si == mi * (-q) + 0) by (nonlinear_arith)
                        requires
                            (-si) == mi * q + k,
                            k == 0,
                    ;
                    vstd::arithmetic::div_mod::lemma_fundamental_div_mod_converse(si, mi, -q, 0);
                } else {
                    assert(si == mi * (-q - 1) + (mi - k)) by (nonlinear_arith)
                        requires
                            (-si) == mi * q + k,
                    ;
                    vstd::arithmetic::div_mod::lemma_fundamental_div_mod_converse(
                        si,
                        mi,
                        -q - 1,
                        mi - k,
                    );
                }
            }
        }
        self.last = self.current;
        self.current = r as usize;
        self.direction = delta;
    }
}

/// Moving forwards by one and back by one brings the carousel back to the
/// banner it showed.
pub proof fn lemma_navigate_round_trip(current: int, len: int)
    requires
        0 <= current < len,
    ensures
        wrap_index(wrap_index(current + 1, len) - 1, len) == current,
{
    vstd::arithmetic::div_mod::lemma_mod_add_multiples_vanish(current, len);
    if current + 1 == len {
        assert(wrap_index(current + 1, len) == 0) by {
            vstd::arithmetic::div_mod::lemma_mod_self_0(len);
        }
        assert(wrap_index(-1, len) == len - 1) by {
            vstd::arithmetic::div_mod::lemma_fundamental_div_mod_converse(-1, len, -1, len - 1);
        }
    } else {
        vstd::arithmetic::div_mod::lemma_small_mod((current + 1) as nat, len as nat);
        vstd::arithmetic::div_mod::lemma_small_mod(current as nat, len as nat);
    }
}

/// The carousel always shows a banner that exists.
pub proof fn lemma_wrap_in_range(a: int, len: int)
    requires
        len > 0,
    ensures
        0 <= wrap_index(a, len) < len,
{
    vstd::arithmetic::div_mod::lemma_mod_bound(a, len);
}

} // verus!
