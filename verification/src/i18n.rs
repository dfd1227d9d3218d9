//! The user interface texts in Simplified Chinese, by key.

use vstd::prelude::*;

verus! {

/// Number of translated texts.
pub const KEY_COUNT: usize = 164;

/// The keys of the user interface texts.
#[derive(Debug, Clone, Copy, PartialEq, Eq, Hash, Structural)]
pub enum Key {
    AppName,
    NavHome,
    NavDiscover,
    NavRadio,
    NavSettings,
    NavAudioEngine,
    LibraryTitle,
    LibraryRecentlyPlayed,
    ImportLocalPlaylist,
    CloudPlaylistsTitle,
    CloudPlaylistsNotLoggedIn,
    GuestUser,
    NotLoggedIn,
    ClickToLogin,
    FreeAccount,
    SearchPlaceholder,
    HeroTitle,
    HeroSubtitle,
    PlayButton,
    TrendingSongs,
    SeeAll,
    RecentlyPlayed,
    RecentlyPlayedDescription,
    RecentlyPlayedList,
    Minimize,
    Maximize,
    Close,
    Settings,
    Back,
    Forward,
    SettingsTitle,
    SettingsTabAccount,
    SettingsTabPlayback,
    SettingsTabDisplay,
    SettingsTabSystem,
    SettingsTabStorage,
    SettingsTabShortcuts,
    SettingsTabAbout,
    SettingsPlaybackTitle,
    SettingsMusicQuality,
    SettingsMusicQualityDesc,
    SettingsFadeInOut,
    SettingsFadeInOutDesc,
    SettingsVolumeNormalization,
    SettingsVolumeNormalizationDesc,
    SettingsEqualizer,
    SettingsEqualizerDesc,
    AudioEngineTitle,
    AudioEngineDesc,
    AudioEngineEqualizer,
    AudioEngineEqualizerDesc,
    AudioEngineVolumeVisualization,
    AudioEngineVolumeVisualizationDesc,
    AudioEngineWaveform,
    AudioEngineWaveformDesc,
    SettingsAccountTitle,
    SettingsAccountNotLoggedIn,
    SettingsAccountLoggedInAs,
    SettingsAccountVipStatus,
    SettingsAccountLogout,
    SettingsDisplayTitle,
    SettingsDarkMode,
    SettingsLanguage,
    SettingsPowerSavingMode,
    SettingsPowerSavingModeDesc,
    SettingsCloseBehavior,
    SettingsCloseBehaviorAsk,
    SettingsCloseBehaviorExit,
    SettingsCloseBehaviorMinimize,
    SettingsSystemTitle,
    SettingsAudioDevice,
    SettingsAudioBuffer,
    SettingsAudioBufferDesc,
    SettingsDefaultDevice,
    SettingsNetworkTitle,
    SettingsTabNetwork,
    SettingsProxyType,
    SettingsProxyHost,
    SettingsProxyPort,
    SettingsProxyUsername,
    SettingsProxyPassword,
    SettingsProxyNone,
    SettingsProxySystem,
    SettingsStorageTitle,
    SettingsCacheLocation,
    SettingsCacheSize,
    SettingsMaxCache,
    SettingsClearCache,
    SettingsClearCacheDesc,
    SettingsClearButton,
    SettingsShortcutsTitle,
    SettingsShortcutsPlayback,
    SettingsShortcutsNavigation,
    SettingsShortcutsUI,
    SettingsShortcutsGeneral,
    SettingsAboutTitle,
    SettingsAppName,
    SettingsVersion,
    SettingsDeveloper,
    SettingsDescription,
    ActionPlayPause,
    ActionNextTrack,
    ActionPrevTrack,
    ActionVolumeUp,
    ActionVolumeDown,
    ActionVolumeMute,
    ActionSeekForward,
    ActionSeekBackward,
    ActionGoHome,
    ActionGoSearch,
    ActionGoQueue,
    ActionGoSettings,
    ActionToggleQueue,
    ActionToggleSidebar,
    ActionToggleFullscreen,
    ActionEscape,
    ActionDelete,
    ActionSelectAll,
    PlaylistTypeLabel,
    PlaylistLikes,
    PlaylistSongCount,
    PlaylistCustomSort,
    PlaylistHeaderNumber,
    PlaylistHeaderTitle,
    PlaylistHeaderAlbum,
    PlaylistHeaderAddedDate,
    DiscoverRecommended,
    DiscoverHot,
    DiscoverSeeAll,
    DiscoverDailyRecommend,
    DiscoverDailyRecommendDesc,
    DiscoverDailyRecommendCreator,
    DiscoverLoadFailed,
    DiscoverPlaylistLoadFailed,
    Loading,
    Cancel,
    Save,
    Delete,
    Refresh,
    LyricsNoLyrics,
    LyricsPureMusic,
    AudioEngineEqualizerDisabled,
    AudioEngineSpectrum,
    QueueTitle,
    QueueSongCount,
    QueueEmpty,
    PlaylistNoSongs,
    LoginScanQr,
    LoginGeneratingQr,
    LoginRefreshQr,
    LoginLoggedIn,
    LoginLogout,
    DeletePlaylistTitle,
    DeletePlaylistConfirm,
    EditPlaylistTitle,
    EditPlaylistChangeCover,
    EditPlaylistName,
    EditPlaylistNamePlaceholder,
    EditPlaylistDesc,
    EditPlaylistDescPlaceholder,
    ExitDialogTitle,
    ExitDialogMessage,
    ExitDialogExit,
    ExitDialogMinimize,
}

/// The Simplified Chinese text of a key.
pub open spec fn zh_text(k: Key) -> Seq<char> {
    match k {
        Key::AppName => "Rustle"@,
        Key::NavHome => "首页"@,
        Key::NavDiscover => "发现"@,
        Key::NavRadio => "电台"@,
        Key::NavSettings => "设置"@,
        Key::NavAudioEngine => "音频引擎"@,
        Key::LibraryTitle => "音乐库"@,
        Key::LibraryRecentlyPlayed => "最近播放"@,
        Key::ImportLocalPlaylist => "导入本地歌单"@,
        Key::CloudPlaylistsTitle => "云端歌单"@,
        Key::CloudPlaylistsNotLoggedIn => "登录以查看云端歌单"@,
        Key::GuestUser => "访客"@,
        Key::NotLoggedIn => "未登录"@,
        Key::ClickToLogin => "点击登录"@,
        Key::FreeAccount => "免费账户"@,
        Key::SearchPlaceholder => "搜索歌曲、艺术家、专辑..."@,
        Key::HeroTitle => "2024 全球热门"@,
        Key::HeroSubtitle => "来自世界各地的热门歌曲"@,
        Key::PlayButton => "播放"@,
        Key::TrendingSongs => "热门歌曲"@,
        Key::SeeAll => "查看全部"@,
        Key::RecentlyPlayed => "最近播放"@,
        Key::RecentlyPlayedDescription => "最近播放的200首歌曲"@,
        Key::RecentlyPlayedList => "最近播放"@,
        Key::Minimize => "最小化"@,
        Key::Maximize => "最大化"@,
        Key::Close => "关闭"@,
        Key::Settings => "设置"@,
        Key::Back => "后退"@,
        Key::Forward => "前进"@,
        Key::SettingsTitle => "设置"@,
        Key::SettingsTabAccount => "账号"@,
        Key::SettingsTabPlayback => "播放"@,
        Key::SettingsTabDisplay => "界面"@,
        Key::SettingsTabSystem => "系统"@,
        Key::SettingsTabStorage => "存储"@,
        Key::SettingsTabShortcuts => "快捷键"@,
        Key::SettingsTabAbout => "关于"@,
        Key::SettingsPlaybackTitle => "播放设置"@,
        Key::SettingsMusicQuality => "音质选择"@,
        Key::SettingsMusicQualityDesc => "选择在线播放的音频质量"@,
        Key::SettingsFadeInOut => "淡入淡出"@,
        Key::SettingsFadeInOutDesc => "播放和暂停时平滑过渡音量"@,
        Key::SettingsVolumeNormalization => "音量标准化"@,
        Key::SettingsVolumeNormalizationDesc => "自动调整音量使所有歌曲音量一致"@,
        Key::SettingsEqualizer => "均衡器"@,
        Key::SettingsEqualizerDesc => "启用音频均衡器调节"@,
        Key::AudioEngineTitle => "Rustle 音频引擎"@,
        Key::AudioEngineDesc => "高级音频处理与可视化"@,
        Key::AudioEngineEqualizer => "均衡器"@,
        Key::AudioEngineEqualizerDesc => "10 频段参数均衡器"@,
        Key::AudioEngineVolumeVisualization => "音量可视化"@,
        Key::AudioEngineVolumeVisualizationDesc => "实时音量电平显示"@,
        Key::AudioEngineWaveform => "波形显示"@,
        Key::AudioEngineWaveformDesc => "音频波形实时可视化"@,
        Key::SettingsAccountTitle => "账号设置"@,
        Key::SettingsAccountNotLoggedIn => "当前未登录"@,
        Key::SettingsAccountLoggedInAs => "当前登录账号"@,
        Key::SettingsAccountVipStatus => "VIP 状态"@,
        Key::SettingsAccountLogout => "退出登录"@,
        Key::SettingsDisplayTitle => "界面与显示"@,
        Key::SettingsDarkMode => "深色模式"@,
        Key::SettingsLanguage => "应用语言"@,
        Key::SettingsPowerSavingMode => "省电模式"@,
        Key::SettingsPowerSavingModeDesc => "关闭动画和特效，降低 CPU 占用"@,
        Key::SettingsCloseBehavior => "关闭按钮行为"@,
        Key::SettingsCloseBehaviorAsk => "询问"@,
        Key::SettingsCloseBehaviorExit => "退出"@,
        Key::SettingsCloseBehaviorMinimize => "最小化到托盘"@,
        Key::SettingsSystemTitle => "系统设置"@,
        Key::SettingsAudioDevice => "音频输出设备"@,
        Key::SettingsAudioBuffer => "音频缓冲区"@,
        Key::SettingsAudioBufferDesc => "较大的缓冲区可减少音频卡顿"@,
        Key::SettingsDefaultDevice => "默认设备"@,
        Key::SettingsNetworkTitle => "网络设置"@,
        Key::SettingsTabNetwork => "网络"@,
        Key::SettingsProxyType => "代理类型"@,
        Key::SettingsProxyHost => "代理地址"@,
        Key::SettingsProxyPort => "代理端口"@,
        Key::SettingsProxyUsername => "用户名"@,
        Key::SettingsProxyPassword => "密码"@,
        Key::SettingsProxyNone => "无代理"@,
        Key::SettingsProxySystem => "系统代理"@,
        Key::SettingsStorageTitle => "存储设置"@,
        Key::SettingsCacheLocation => "缓存位置"@,
        Key::SettingsCacheSize => "当前缓存大小"@,
        Key::SettingsMaxCache => "最大缓存占用"@,
        Key::SettingsClearCache => "清除缓存"@,
        Key::SettingsClearCacheDesc => "删除所有缓存的音频文件"@,
        Key::SettingsClearButton => "清除"@,
        Key::SettingsShortcutsTitle => "快捷键设置"@,
        Key::SettingsShortcutsPlayback => "播放控制"@,
        Key::SettingsShortcutsNavigation => "导航"@,
        Key::SettingsShortcutsUI => "界面"@,
        Key::SettingsShortcutsGeneral => "通用"@,
        Key::SettingsAboutTitle => "关于"@,
        Key::SettingsAppName => "应用名称"@,
        Key::SettingsVersion => "版本"@,
        Key::SettingsDeveloper => "开发者"@,
        Key::SettingsDescription => "一个基于 Rust 的现代化本地音乐播放器"@,
        Key::ActionPlayPause => "播放/暂停"@,
        Key::ActionNextTrack => "下一首"@,
        Key::ActionPrevTrack => "上一首"@,
        Key::ActionVolumeUp => "增加音量"@,
        Key::ActionVolumeDown => "减少音量"@,
        Key::ActionVolumeMute => "静音"@,
        Key::ActionSeekForward => "快进"@,
        Key::ActionSeekBackward => "快退"@,
        Key::ActionGoHome => "返回首页"@,
        Key::ActionGoSearch => "搜索"@,
        Key::ActionGoQueue => "播放队列"@,
        Key::ActionGoSettings => "设置"@,
        Key::ActionToggleQueue => "显示/隐藏队列"@,
        Key::ActionToggleSidebar => "显示/隐藏侧边栏"@,
        Key::ActionToggleFullscreen => "全屏"@,
        Key::ActionEscape => "取消/关闭"@,
        Key::ActionDelete => "删除"@,
        Key::ActionSelectAll => "全选"@,
        Key::PlaylistTypeLabel => "歌单"@,
        Key::PlaylistLikes => "{} 次点赞"@,
        Key::PlaylistSongCount => "{} 首歌曲"@,
        Key::PlaylistCustomSort => "自定义排序"@,
        Key::PlaylistHeaderNumber => "#"@,
        Key::PlaylistHeaderTitle => "标题"@,
        Key::PlaylistHeaderAlbum => "专辑"@,
        Key::PlaylistHeaderAddedDate => "添加日期"@,
        Key::DiscoverRecommended => "推荐歌单"@,
        Key::DiscoverHot => "热门歌单"@,
        Key::DiscoverSeeAll => "查看全部"@,
        Key::DiscoverDailyRecommend => "每日推荐"@,
        Key::DiscoverDailyRecommendDesc => "根据你的口味生成，每天6:00更新"@,
        Key::DiscoverDailyRecommendCreator => "网易云音乐"@,
        Key::DiscoverLoadFailed => "无法加载每日推荐"@,
        Key::DiscoverPlaylistLoadFailed => "无法加载歌单"@,
        Key::Loading => "加载中..."@,
        Key::Cancel => "取消"@,
        Key::Save => "保存"@,
        Key::Delete => "删除"@,
        Key::Refresh => "刷新"@,
        Key::LyricsNoLyrics => "暂无歌词"@,
        Key::LyricsPureMusic => "纯音乐，请欣赏"@,
        Key::AudioEngineEqualizerDisabled => "均衡器已关闭"@,
        Key::AudioEngineSpectrum => "频谱"@,
        Key::QueueTitle => "播放队列"@,
        Key::QueueSongCount => "{} 首"@,
        Key::QueueEmpty => "队列为空"@,
        Key::PlaylistNoSongs => "暂无歌曲"@,
        Key::LoginScanQr => "扫码登录"@,
        Key::LoginGeneratingQr => "生成二维码中..."@,
        Key::LoginRefreshQr => "刷新二维码"@,
        Key::LoginLoggedIn => "已登录"@,
        Key::LoginLogout => "退出登录"@,
        Key::DeletePlaylistTitle => "删除歌单"@,
        Key::DeletePlaylistConfirm => "确定要删除这个歌单吗？"@,
        Key::EditPlaylistTitle => "编辑歌单"@,
        Key::EditPlaylistChangeCover => "更换封面"@,
        Key::EditPlaylistName => "歌单名称"@,
        Key::EditPlaylistNamePlaceholder => "输入歌单名称..."@,
        Key::EditPlaylistDesc => "歌单描述"@,
        Key::EditPlaylistDescPlaceholder => "输入歌单描述（可选）..."@,
        Key::ExitDialogTitle => "退出应用"@,
        Key::ExitDialogMessage => "你想要关闭应用还是最小化到系统托盘？"@,
        Key::ExitDialogExit => "退出"@,
        Key::ExitDialogMinimize => "最小化到托盘"@,
    }
}

/// The Simplified Chinese text of a key.
pub fn translate(k: Key) -> (r: &'static str)
    ensures
        r@ == zh_text(k),
{
    match k {
        Key::AppName => "Rustle",
        Key::NavHome => "首页",
        Key::NavDiscover => "发现",
        Key::NavRadio => "电台",
        Key::NavSettings => "设置",
        Key::NavAudioEngine => "音频引擎",
        Key::LibraryTitle => "音乐库",
        Key::LibraryRecentlyPlayed => "最近播放",
        Key::ImportLocalPlaylist => "导入本地歌单",
        Key::CloudPlaylistsTitle => "云端歌单",
        Key::CloudPlaylistsNotLoggedIn => "登录以查看云端歌单",
        Key::GuestUser => "访客",
        Key::NotLoggedIn => "未登录",
        Key::ClickToLogin => "点击登录",
        Key::FreeAccount => "免费账户",
        Key::SearchPlaceholder => "搜索歌曲、艺术家、专辑...",
        Key::HeroTitle => "2024 全球热门",
        Key::HeroSubtitle => "来自世界各地的热门歌曲",
        Key::PlayButton => "播放",
        Key::TrendingSongs => "热门歌曲",
        Key::SeeAll => "查看全部",
        Key::RecentlyPlayed => "最近播放",
        Key::RecentlyPlayedDescription => "最近播放的200首歌曲",
        Key::RecentlyPlayedList => "最近播放",
        Key::Minimize => "最小化",
        Key::Maximize => "最大化",
        Key::Close => "关闭",
        Key::Settings => "设置",
        Key::Back => "后退",
        Key::Forward => "前进",
        Key::SettingsTitle => "设置",
        Key::SettingsTabAccount => "账号",
        Key::SettingsTabPlayback => "播放",
        Key::SettingsTabDisplay => "界面",
        Key::SettingsTabSystem => "系统",
        Key::SettingsTabStorage => "存储",
        Key::SettingsTabShortcuts => "快捷键",
        Key::SettingsTabAbout => "关于",
        Key::SettingsPlaybackTitle => "播放设置",
        Key::SettingsMusicQuality => "音质选择",
        Key::SettingsMusicQualityDesc => "选择在线播放的音频质量",
        Key::SettingsFadeInOut => "淡入淡出",
        Key::SettingsFadeInOutDesc => "播放和暂停时平滑过渡音量",
        Key::SettingsVolumeNormalization => "音量标准化",
        Key::SettingsVolumeNormalizationDesc => "自动调整音量使所有歌曲音量一致",
        Key::SettingsEqualizer => "均衡器",
        Key::SettingsEqualizerDesc => "启用音频均衡器调节",
        Key::AudioEngineTitle => "Rustle 音频引擎",
        Key::AudioEngineDesc => "高级音频处理与可视化",
        Key::AudioEngineEqualizer => "均衡器",
        Key::AudioEngineEqualizerDesc => "10 频段参数均衡器",
        Key::AudioEngineVolumeVisualization => "音量可视化",
        Key::AudioEngineVolumeVisualizationDesc => "实时音量电平显示",
        Key::AudioEngineWaveform => "波形显示",
        Key::AudioEngineWaveformDesc => "音频波形实时可视化",
        Key::SettingsAccountTitle => "账号设置",
        Key::SettingsAccountNotLoggedIn => "当前未登录",
        Key::SettingsAccountLoggedInAs => "当前登录账号",
        Key::SettingsAccountVipStatus => "VIP 状态",
        Key::SettingsAccountLogout => "退出登录",
        Key::SettingsDisplayTitle => "界面与显示",
        Key::SettingsDarkMode => "深色模式",
        Key::SettingsLanguage => "应用语言",
        Key::SettingsPowerSavingMode => "省电模式",
        Key::SettingsPowerSavingModeDesc => "关闭动画和特效，降低 CPU 占用",
        Key::SettingsCloseBehavior => "关闭按钮行为",
        Key::SettingsCloseBehaviorAsk => "询问",
        Key::SettingsCloseBehaviorExit => "退出",
        Key::SettingsCloseBehaviorMinimize => "最小化到托盘",
        Key::SettingsSystemTitle => "系统设置",
        Key::SettingsAudioDevice => "音频输出设备",
        Key::SettingsAudioBuffer => "音频缓冲区",
        Key::SettingsAudioBufferDesc => "较大的缓冲区可减少音频卡顿",
        Key::SettingsDefaultDevice => "默认设备",
        Key::SettingsNetworkTitle => "网络设置",
        Key::SettingsTabNetwork => "网络",
        Key::SettingsProxyType => "代理类型",
        Key::SettingsProxyHost => "代理地址",
        Key::SettingsProxyPort => "代理端口",
        Key::SettingsProxyUsername => "用户名",
        Key::SettingsProxyPassword => "密码",
        Key::SettingsProxyNone => "无代理",
        Key::SettingsProxySystem => "系统代理",
        Key::SettingsStorageTitle => "存储设置",
        Key::SettingsCacheLocation => "缓存位置",
        Key::SettingsCacheSize => "当前缓存大小",
        Key::SettingsMaxCache => "最大缓存占用",
        Key::SettingsClearCache => "清除缓存",
        Key::SettingsClearCacheDesc => "删除所有缓存的音频文件",
        Key::SettingsClearButton => "清除",
        Key::SettingsShortcutsTitle => "快捷键设置",
        Key::SettingsShortcutsPlayback => "播放控制",
        Key::SettingsShortcutsNavigation => "导航",
        Key::SettingsShortcutsUI => "界面",
        Key::SettingsShortcutsGeneral => "通用",
        Key::SettingsAboutTitle => "关于",
        Key::SettingsAppName => "应用名称",
        Key::SettingsVersion => "版本",
        Key::SettingsDeveloper => "开发者",
        Key::SettingsDescription => "一个基于 Rust 的现代化本地音乐播放器",
        Key::ActionPlayPause => "播放/暂停",
        Key::ActionNextTrack => "下一首",
        Key::ActionPrevTrack => "上一首",
        Key::ActionVolumeUp => "增加音量",
        Key::ActionVolumeDown => "减少音量",
        Key::ActionVolumeMute => "静音",
        Key::ActionSeekForward => "快进",
        Key::ActionSeekBackward => "快退",
        Key::ActionGoHome => "返回首页",
        Key::ActionGoSearch => "搜索",
        Key::ActionGoQueue => "播放队列",
        Key::ActionGoSettings => "设置",
        Key::ActionToggleQueue => "显示/隐藏队列",
        Key::ActionToggleSidebar => "显示/隐藏侧边栏",
        Key::ActionToggleFullscreen => "全屏",
        Key::ActionEscape => "取消/关闭",
        Key::ActionDelete => "删除",
        Key::ActionSelectAll => "全选",
        Key::PlaylistTypeLabel => "歌单",
        Key::PlaylistLikes => "{} 次点赞",
        Key::PlaylistSongCount => "{} 首歌曲",
        Key::PlaylistCustomSort => "自定义排序",
        Key::PlaylistHeaderNumber => "#",
        Key::PlaylistHeaderTitle => "标题",
        Key::PlaylistHeaderAlbum => "专辑",
        Key::PlaylistHeaderAddedDate => "添加日期",
        Key::DiscoverRecommended => "推荐歌单",
        Key::DiscoverHot => "热门歌单",
        Key::DiscoverSeeAll => "查看全部",
        Key::DiscoverDailyRecommend => "每日推荐",
        Key::DiscoverDailyRecommendDesc => "根据你的口味生成，每天6:00更新",
        Key::DiscoverDailyRecommendCreator => "网易云音乐",
        Key::DiscoverLoadFailed => "无法加载每日推荐",
        Key::DiscoverPlaylistLoadFailed => "无法加载歌单",
        Key::Loading => "加载中...",
        Key::Cancel => "取消",
        Key::Save => "保存",
        Key::Delete => "删除",
        Key::Refresh => "刷新",
        Key::LyricsNoLyrics => "暂无歌词",
        Key::LyricsPureMusic => "纯音乐，请欣赏",
        Key::AudioEngineEqualizerDisabled => "均衡器已关闭",
        Key::AudioEngineSpectrum => "频谱",
        Key::QueueTitle => "播放队列",
        Key::QueueSongCount => "{} 首",
        Key::QueueEmpty => "队列为空",
        Key::PlaylistNoSongs => "暂无歌曲",
        Key::LoginScanQr => "扫码登录",
        Key::LoginGeneratingQr => "生成二维码中...",
        Key::LoginRefreshQr => "刷新二维码",
        Key::LoginLoggedIn => "已登录",
        Key::LoginLogout => "退出登录",
        Key::DeletePlaylistTitle => "删除歌单",
        Key::DeletePlaylistConfirm => "确定要删除这个歌单吗？",
        Key::EditPlaylistTitle => "编辑歌单",
        Key::EditPlaylistChangeCover => "更换封面",
        Key::EditPlaylistName => "歌单名称",
        Key::EditPlaylistNamePlaceholder => "输入歌单名称...",
        Key::EditPlaylistDesc => "歌单描述",
        Key::EditPlaylistDescPlaceholder => "输入歌单描述（可选）...",
        Key::ExitDialogTitle => "退出应用",
        Key::ExitDialogMessage => "你想要关闭应用还是最小化到系统托盘？",
        Key::ExitDialogExit => "退出",
        Key::ExitDialogMinimize => "最小化到托盘",
    }
}

/// The key at a position of the table, in the order the table lists them.
pub open spec fn key_at(i: usize) -> Key {
    match i {
        0 => Key::AppName,
        1 => Key::NavHome,
        2 => Key::NavDiscover,
        3 => Key::NavRadio,
        4 => Key::NavSettings,
        5 => Key::NavAudioEngine,
        6 => Key::LibraryTitle,
        7 => Key::LibraryRecentlyPlayed,
        8 => Key::ImportLocalPlaylist,
        9 => Key::CloudPlaylistsTitle,
        10 => Key::CloudPlaylistsNotLoggedIn,
        11 => Key::GuestUser,
        12 => Key::NotLoggedIn,
        13 => Key::ClickToLogin,
        14 => Key::FreeAccount,
        15 => Key::SearchPlaceholder,
        16 => Key::HeroTitle,
        17 => Key::HeroSubtitle,
        18 => Key::PlayButton,
        19 => Key::TrendingSongs,
        20 => Key::SeeAll,
        21 => Key::RecentlyPlayed,
        22 => Key::RecentlyPlayedDescription,
        23 => Key::RecentlyPlayedList,
        24 => Key::Minimize,
        25 => Key::Maximize,
        26 => Key::Close,
        27 => Key::Settings,
        28 => Key::Back,
        29 => Key::Forward,
        30 => Key::SettingsTitle,
        31 => Key::SettingsTabAccount,
        32 => Key::SettingsTabPlayback,
        33 => Key::SettingsTabDisplay,
        34 => Key::SettingsTabSystem,
        35 => Key::SettingsTabStorage,
        36 => Key::SettingsTabShortcuts,
        37 => Key::SettingsTabAbout,
        38 => Key::SettingsPlaybackTitle,
        39 => Key::SettingsMusicQuality,
        40 => Key::SettingsMusicQualityDesc,
        41 => Key::SettingsFadeInOut,
        42 => Key::SettingsFadeInOutDesc,
        43 => Key::SettingsVolumeNormalization,
        44 => Key::SettingsVolumeNormalizationDesc,
        45 => Key::SettingsEqualizer,
        46 => Key::SettingsEqualizerDesc,
        47 => Key::AudioEngineTitle,
        48 => Key::AudioEngineDesc,
        49 => Key::AudioEngineEqualizer,
        50 => Key::AudioEngineEqualizerDesc,
        51 => Key::AudioEngineVolumeVisualization,
        52 => Key::AudioEngineVolumeVisualizationDesc,
        53 => Key::AudioEngineWaveform,
        54 => Key::AudioEngineWaveformDesc,
        55 => Key::SettingsAccountTitle,
        56 => Key::SettingsAccountNotLoggedIn,
        57 => Key::SettingsAccountLoggedInAs,
        58 => Key::SettingsAccountVipStatus,
        59 => Key::SettingsAccountLogout,
        60 => Key::SettingsDisplayTitle,
        61 => Key::SettingsDarkMode,
        62 => Key::SettingsLanguage,
        63 => Key::SettingsPowerSavingMode,
        64 => Key::SettingsPowerSavingModeDesc,
        65 => Key::SettingsCloseBehavior,
        66 => Key::SettingsCloseBehaviorAsk,
        67 => Key::SettingsCloseBehaviorExit,
        68 => Key::SettingsCloseBehaviorMinimize,
        69 => Key::SettingsSystemTitle,
        70 => Key::SettingsAudioDevice,
        71 => Key::SettingsAudioBuffer,
        72 => Key::SettingsAudioBufferDesc,
        73 => Key::SettingsDefaultDevice,
        74 => Key::SettingsNetworkTitle,
        75 => Key::SettingsTabNetwork,
        76 => Key::SettingsProxyType,
        77 => Key::SettingsProxyHost,
        78 => Key::SettingsProxyPort,
        79 => Key::SettingsProxyUsername,
        80 => Key::SettingsProxyPassword,
        81 => Key::SettingsProxyNone,
        82 => Key::SettingsProxySystem,
        83 => Key::SettingsStorageTitle,
        84 => Key::SettingsCacheLocation,
        85 => Key::SettingsCacheSize,
        86 => Key::SettingsMaxCache,
        87 => Key::SettingsClearCache,
        88 => Key::SettingsClearCacheDesc,
        89 => Key::SettingsClearButton,
        90 => Key::SettingsShortcutsTitle,
        91 => Key::SettingsShortcutsPlayback,
        92 => Key::SettingsShortcutsNavigation,
        93 => Key::SettingsShortcutsUI,
        94 => Key::SettingsShortcutsGeneral,
        95 => Key::SettingsAboutTitle,
        96 => Key::SettingsAppName,
        97 => Key::SettingsVersion,
        98 => Key::SettingsDeveloper,
        99 => Key::SettingsDescription,
        100 => Key::ActionPlayPause,
        101 => Key::ActionNextTrack,
        102 => Key::ActionPrevTrack,
        103 => Key::ActionVolumeUp,
        104 => Key::ActionVolumeDown,
        105 => Key::ActionVolumeMute,
        106 => Key::ActionSeekForward,
        107 => Key::ActionSeekBackward,
        108 => Key::ActionGoHome,
        109 => Key::ActionGoSearch,
        110 => Key::ActionGoQueue,
        111 => Key::ActionGoSettings,
        112 => Key::ActionToggleQueue,
        113 => Key::ActionToggleSidebar,
        114 => Key::ActionToggleFullscreen,
        115 => Key::ActionEscape,
        116 => Key::ActionDelete,
        117 => Key::ActionSelectAll,
        118 => Key::PlaylistTypeLabel,
        119 => Key::PlaylistLikes,
        120 => Key::PlaylistSongCount,
        121 => Key::PlaylistCustomSort,
        122 => Key::PlaylistHeaderNumber,
        123 => Key::PlaylistHeaderTitle,
        124 => Key::PlaylistHeaderAlbum,
        125 => Key::PlaylistHeaderAddedDate,
        126 => Key::DiscoverRecommended,
        127 => Key::DiscoverHot,
        128 => Key::DiscoverSeeAll,
        129 => Key::DiscoverDailyRecommend,
        130 => Key::DiscoverDailyRecommendDesc,
        131 => Key::DiscoverDailyRecommendCreator,
        132 => Key::DiscoverLoadFailed,
        133 => Key::DiscoverPlaylistLoadFailed,
        134 => Key::Loading,
        135 => Key::Cancel,
        136 => Key::Save,
        137 => Key::Delete,
        138 => Key::Refresh,
        139 => Key::LyricsNoLyrics,
        140 => Key::LyricsPureMusic,
        141 => Key::AudioEngineEqualizerDisabled,
        142 => Key::AudioEngineSpectrum,
        143 => Key::QueueTitle,
        144 => Key::QueueSongCount,
        145 => Key::QueueEmpty,
        146 => Key::PlaylistNoSongs,
        147 => Key::LoginScanQr,
        148 => Key::LoginGeneratingQr,
        149 => Key::LoginRefreshQr,
        150 => Key::LoginLoggedIn,
        151 => Key::LoginLogout,
        152 => Key::DeletePlaylistTitle,
        153 => Key::DeletePlaylistConfirm,
        154 => Key::EditPlaylistTitle,
        155 => Key::EditPlaylistChangeCover,
        156 => Key::EditPlaylistName,
        157 => Key::EditPlaylistNamePlaceholder,
        158 => Key::EditPlaylistDesc,
        159 => Key::EditPlaylistDescPlaceholder,
        160 => Key::ExitDialogTitle,
        161 => Key::ExitDialogMessage,
        162 => Key::ExitDialogExit,
        _ => Key::ExitDialogMinimize,
    }
}

/// The position of a key in the table.
pub open spec fn position_of(k: Key) -> usize {
    match k {
        Key::AppName => 0,
        Key::NavHome => 1,
        Key::NavDiscover => 2,
        Key::NavRadio => 3,
        Key::NavSettings => 4,
        Key::NavAudioEngine => 5,
        Key::LibraryTitle => 6,
        Key::LibraryRecentlyPlayed => 7,
        Key::ImportLocalPlaylist => 8,
        Key::CloudPlaylistsTitle => 9,
        Key::CloudPlaylistsNotLoggedIn => 10,
        Key::GuestUser => 11,
        Key::NotLoggedIn => 12,
        Key::ClickToLogin => 13,
        Key::FreeAccount => 14,
        Key::SearchPlaceholder => 15,
        Key::HeroTitle => 16,
        Key::HeroSubtitle => 17,
        Key::PlayButton => 18,
        Key::TrendingSongs => 19,
        Key::SeeAll => 20,
        Key::RecentlyPlayed => 21,
        Key::RecentlyPlayedDescription => 22,
        Key::RecentlyPlayedList => 23,
        Key::Minimize => 24,
        Key::Maximize => 25,
        Key::Close => 26,
        Key::Settings => 27,
        Key::Back => 28,
        Key::Forward => 29,
        Key::SettingsTitle => 30,
        Key::SettingsTabAccount => 31,
        Key::SettingsTabPlayback => 32,
        Key::SettingsTabDisplay => 33,
        Key::SettingsTabSystem => 34,
        Key::SettingsTabStorage => 35,
        Key::SettingsTabShortcuts => 36,
        Key::SettingsTabAbout => 37,
        Key::SettingsPlaybackTitle => 38,
        Key::SettingsMusicQuality => 39,
        Key::SettingsMusicQualityDesc => 40,
        Key::SettingsFadeInOut => 41,
        Key::SettingsFadeInOutDesc => 42,
        Key::SettingsVolumeNormalization => 43,
        Key::SettingsVolumeNormalizationDesc => 44,
        Key::SettingsEqualizer => 45,
        Key::SettingsEqualizerDesc => 46,
        Key::AudioEngineTitle => 47,
        Key::AudioEngineDesc => 48,
        Key::AudioEngineEqualizer => 49,
        Key::AudioEngineEqualizerDesc => 50,
        Key::AudioEngineVolumeVisualization => 51,
        Key::AudioEngineVolumeVisualizationDesc => 52,
        Key::AudioEngineWaveform => 53,
        Key::AudioEngineWaveformDesc => 54,
        Key::SettingsAccountTitle => 55,
        Key::SettingsAccountNotLoggedIn => 56,
        Key::SettingsAccountLoggedInAs => 57,
        Key::SettingsAccountVipStatus => 58,
        Key::SettingsAccountLogout => 59,
        Key::SettingsDisplayTitle => 60,
        Key::SettingsDarkMode => 61,
        Key::SettingsLanguage => 62,
        Key::SettingsPowerSavingMode => 63,
        Key::SettingsPowerSavingModeDesc => 64,
        Key::SettingsCloseBehavior => 65,
        Key::SettingsCloseBehaviorAsk => 66,
        Key::SettingsCloseBehaviorExit => 67,
        Key::SettingsCloseBehaviorMinimize => 68,
        Key::SettingsSystemTitle => 69,
        Key::SettingsAudioDevice => 70,
        Key::SettingsAudioBuffer => 71,
        Key::SettingsAudioBufferDesc => 72,
        Key::SettingsDefaultDevice => 73,
        Key::SettingsNetworkTitle => 74,
        Key::SettingsTabNetwork => 75,
        Key::SettingsProxyType => 76,
        Key::SettingsProxyHost => 77,
        Key::SettingsProxyPort => 78,
        Key::SettingsProxyUsername => 79,
        Key::SettingsProxyPassword => 80,
        Key::SettingsProxyNone => 81,
        Key::SettingsProxySystem => 82,
        Key::SettingsStorageTitle => 83,
        Key::SettingsCacheLocation => 84,
        Key::SettingsCacheSize => 85,
        Key::SettingsMaxCache => 86,
        Key::SettingsClearCache => 87,
        Key::SettingsClearCacheDesc => 88,
        Key::SettingsClearButton => 89,
        Key::SettingsShortcutsTitle => 90,
        Key::SettingsShortcutsPlayback => 91,
        Key::SettingsShortcutsNavigation => 92,
        Key::SettingsShortcutsUI => 93,
        Key::SettingsShortcutsGeneral => 94,
        Key::SettingsAboutTitle => 95,
        Key::SettingsAppName => 96,
        Key::SettingsVersion => 97,
        Key::SettingsDeveloper => 98,
        Key::SettingsDescription => 99,
        Key::ActionPlayPause => 100,
        Key::ActionNextTrack => 101,
        Key::ActionPrevTrack => 102,
        Key::ActionVolumeUp => 103,
        Key::ActionVolumeDown => 104,
        Key::ActionVolumeMute => 105,
        Key::ActionSeekForward => 106,
        Key::ActionSeekBackward => 107,
        Key::ActionGoHome => 108,
        Key::ActionGoSearch => 109,
        Key::ActionGoQueue => 110,
        Key::ActionGoSettings => 111,
        Key::ActionToggleQueue => 112,
        Key::ActionToggleSidebar => 113,
        Key::ActionToggleFullscreen => 114,
        Key::ActionEscape => 115,
        Key::ActionDelete => 116,
        Key::ActionSelectAll => 117,
        Key::PlaylistTypeLabel => 118,
        Key::PlaylistLikes => 119,
        Key::PlaylistSongCount => 120,
        Key::PlaylistCustomSort => 121,
        Key::PlaylistHeaderNumber => 122,
        Key::PlaylistHeaderTitle => 123,
        Key::PlaylistHeaderAlbum => 124,
        Key::PlaylistHeaderAddedDate => 125,
        Key::DiscoverRecommended => 126,
        Key::DiscoverHot => 127,
        Key::DiscoverSeeAll => 128,
        Key::DiscoverDailyRecommend => 129,
        Key::DiscoverDailyRecommendDesc => 130,
        Key::DiscoverDailyRecommendCreator => 131,
        Key::DiscoverLoadFailed => 132,
        Key::DiscoverPlaylistLoadFailed => 133,
        Key::Loading => 134,
        Key::Cancel => 135,
        Key::Save => 136,
        Key::Delete => 137,
        Key::Refresh => 138,
        Key::LyricsNoLyrics => 139,
        Key::LyricsPureMusic => 140,
        Key::AudioEngineEqualizerDisabled => 141,
        Key::AudioEngineSpectrum => 142,
        Key::QueueTitle => 143,
        Key::QueueSongCount => 144,
        Key::QueueEmpty => 145,
        Key::PlaylistNoSongs => 146,
        Key::LoginScanQr => 147,
        Key::LoginGeneratingQr => 148,
        Key::LoginRefreshQr => 149,
        Key::LoginLoggedIn => 150,
        Key::LoginLogout => 151,
        Key::DeletePlaylistTitle => 152,
        Key::DeletePlaylistConfirm => 153,
        Key::EditPlaylistTitle => 154,
        Key::EditPlaylistChangeCover => 155,
        Key::EditPlaylistName => 156,
        Key::EditPlaylistNamePlaceholder => 157,
        Key::EditPlaylistDesc => 158,
        Key::EditPlaylistDescPlaceholder => 159,
        Key::ExitDialogTitle => 160,
        Key::ExitDialogMessage => 161,
        Key::ExitDialogExit => 162,
        Key::ExitDialogMinimize => 163,
    }
}

fn key_at_index(i: usize) -> (r: Key)
    requires
        i < KEY_COUNT,
    ensures
        r == key_at(i),
{
    match i {
        0 => Key::AppName,
        1 => Key::NavHome,
        2 => Key::NavDiscover,
        3 => Key::NavRadio,
        4 => Key::NavSettings,
        5 => Key::NavAudioEngine,
        6 => Key::LibraryTitle,
        7 => Key::LibraryRecentlyPlayed,
        8 => Key::ImportLocalPlaylist,
        9 => Key::CloudPlaylistsTitle,
        10 => Key::CloudPlaylistsNotLoggedIn,
        11 => Key::GuestUser,
        12 => Key::NotLoggedIn,
        13 => Key::ClickToLogin,
        14 => Key::FreeAccount,
        15 => Key::SearchPlaceholder,
        16 => Key::HeroTitle,
        17 => Key::HeroSubtitle,
        18 => Key::PlayButton,
        19 => Key::TrendingSongs,
        20 => Key::SeeAll,
        21 => Key::RecentlyPlayed,
        22 => Key::RecentlyPlayedDescription,
        23 => Key::RecentlyPlayedList,
        24 => Key::Minimize,
        25 => Key::Maximize,
        26 => Key::Close,
        27 => Key::Settings,
        28 => Key::Back,
        29 => Key::Forward,
        30 => Key::SettingsTitle,
        31 => Key::SettingsTabAccount,
        32 => Key::SettingsTabPlayback,
        33 => Key::SettingsTabDisplay,
        34 => Key::SettingsTabSystem,
        35 => Key::SettingsTabStorage,
        36 => Key::SettingsTabShortcuts,
        37 => Key::SettingsTabAbout,
        38 => Key::SettingsPlaybackTitle,
        39 => Key::SettingsMusicQuality,
        40 => Key::SettingsMusicQualityDesc,
        41 => Key::SettingsFadeInOut,
        42 => Key::SettingsFadeInOutDesc,
        43 => Key::SettingsVolumeNormalization,
        44 => Key::SettingsVolumeNormalizationDesc,
        45 => Key::SettingsEqualizer,
        46 => Key::SettingsEqualizerDesc,
        47 => Key::AudioEngineTitle,
        48 => Key::AudioEngineDesc,
        49 => Key::AudioEngineEqualizer,
        50 => Key::AudioEngineEqualizerDesc,
        51 => Key::AudioEngineVolumeVisualization,
        52 => Key::AudioEngineVolumeVisualizationDesc,
        53 => Key::AudioEngineWaveform,
        54 => Key::AudioEngineWaveformDesc,
        55 => Key::SettingsAccountTitle,
        56 => Key::SettingsAccountNotLoggedIn,
        57 => Key::SettingsAccountLoggedInAs,
        58 => Key::SettingsAccountVipStatus,
        59 => Key::SettingsAccountLogout,
        60 => Key::SettingsDisplayTitle,
        61 => Key::SettingsDarkMode,
        62 => Key::SettingsLanguage,
        63 => Key::SettingsPowerSavingMode,
        64 => Key::SettingsPowerSavingModeDesc,
        65 => Key::SettingsCloseBehavior,
        66 => Key::SettingsCloseBehaviorAsk,
        67 => Key::SettingsCloseBehaviorExit,
        68 => Key::SettingsCloseBehaviorMinimize,
        69 => Key::SettingsSystemTitle,
        70 => Key::SettingsAudioDevice,
        71 => Key::SettingsAudioBuffer,
        72 => Key::SettingsAudioBufferDesc,
        73 => Key::SettingsDefaultDevice,
        74 => Key::SettingsNetworkTitle,
        75 => Key::SettingsTabNetwork,
        76 => Key::SettingsProxyType,
        77 => Key::SettingsProxyHost,
        78 => Key::SettingsProxyPort,
        79 => Key::SettingsProxyUsername,
        80 => Key::SettingsProxyPassword,
        81 => Key::SettingsProxyNone,
        82 => Key::SettingsProxySystem,
        83 => Key::SettingsStorageTitle,
        84 => Key::SettingsCacheLocation,
        85 => Key::SettingsCacheSize,
        86 => Key::SettingsMaxCache,
        87 => Key::SettingsClearCache,
        88 => Key::SettingsClearCacheDesc,
        89 => Key::SettingsClearButton,
        90 => Key::SettingsShortcutsTitle,
        91 => Key::SettingsShortcutsPlayback,
        92 => Key::SettingsShortcutsNavigation,
        93 => Key::SettingsShortcutsUI,
        94 => Key::SettingsShortcutsGeneral,
        95 => Key::SettingsAboutTitle,
        96 => Key::SettingsAppName,
        97 => Key::SettingsVersion,
        98 => Key::SettingsDeveloper,
        99 => Key::SettingsDescription,
        100 => Key::ActionPlayPause,
        101 => Key::ActionNextTrack,
        102 => Key::ActionPrevTrack,
        103 => Key::ActionVolumeUp,
        104 => Key::ActionVolumeDown,
        105 => Key::ActionVolumeMute,
        106 => Key::ActionSeekForward,
        107 => Key::ActionSeekBackward,
        108 => Key::ActionGoHome,
        109 => Key::ActionGoSearch,
        110 => Key::ActionGoQueue,
        111 => Key::ActionGoSettings,
        112 => Key::ActionToggleQueue,
        113 => Key::ActionToggleSidebar,
        114 => Key::ActionToggleFullscreen,
        115 => Key::ActionEscape,
        116 => Key::ActionDelete,
        117 => Key::ActionSelectAll,
        118 => Key::PlaylistTypeLabel,
        119 => Key::PlaylistLikes,
        120 => Key::PlaylistSongCount,
        121 => Key::PlaylistCustomSort,
        122 => Key::PlaylistHeaderNumber,
        123 => Key::PlaylistHeaderTitle,
        124 => Key::PlaylistHeaderAlbum,
        125 => Key::PlaylistHeaderAddedDate,
        126 => Key::DiscoverRecommended,
        127 => Key::DiscoverHot,
        128 => Key::DiscoverSeeAll,
        129 => Key::DiscoverDailyRecommend,
        130 => Key::DiscoverDailyRecommendDesc,
        131 => Key::DiscoverDailyRecommendCreator,
        132 => Key::DiscoverLoadFailed,
        133 => Key::DiscoverPlaylistLoadFailed,
        134 => Key::Loading,
        135 => Key::Cancel,
        136 => Key::Save,
        137 => Key::Delete,
        138 => Key::Refresh,
        139 => Key::LyricsNoLyrics,
        140 => Key::LyricsPureMusic,
        141 => Key::AudioEngineEqualizerDisabled,
        142 => Key::AudioEngineSpectrum,
        143 => Key::QueueTitle,
        144 => Key::QueueSongCount,
        145 => Key::QueueEmpty,
        146 => Key::PlaylistNoSongs,
        147 => Key::LoginScanQr,
        148 => Key::LoginGeneratingQr,
        149 => Key::LoginRefreshQr,
        150 => Key::LoginLoggedIn,
        151 => Key::LoginLogout,
        152 => Key::DeletePlaylistTitle,
        153 => Key::DeletePlaylistConfirm,
        154 => Key::EditPlaylistTitle,
        155 => Key::EditPlaylistChangeCover,
        156 => Key::EditPlaylistName,
        157 => Key::EditPlaylistNamePlaceholder,
        158 => Key::EditPlaylistDesc,
        159 => Key::EditPlaylistDescPlaceholder,
        160 => Key::ExitDialogTitle,
        161 => Key::ExitDialogMessage,
        162 => Key::ExitDialogExit,
        _ => Key::ExitDialogMinimize,
    }
}

/// Every key has one position in the table.
pub proof fn lemma_every_key_listed(k: Key)
    ensures
        position_of(k) < KEY_COUNT,
        key_at(position_of(k)) == k,
{
}

/// The table of texts: every key once, in the table's order, each with its
/// text.
pub fn translations() -> (r: Vec<(Key, &'static str)>)
    ensures
        r@.len() == KEY_COUNT,
        forall|i: int|
            0 <= i < KEY_COUNT ==> (#[trigger] r@[i]).0 == key_at(i as usize) && r@[i].1@ == zh_text(
                key_at(i as usize),
            ),
        forall|k: Key| #[trigger] r@[position_of(k) as int].0 == k,
{
    let mut table: Vec<(Key, &'static str)> = Vec::new();
    let mut i: usize = 0;
    while i < KEY_COUNT
        invariant
            i <= KEY_COUNT,
            table@.len() == i,
            forall|j: int|
                0 <= j < i ==> (#[trigger] table@[j]).0 == key_at(j as usize) && table@[j].1@
                    == zh_text(key_at(j as usize)),
        decreases KEY_COUNT - i,
    {
        let k = key_at_index(i);
        table.push((k, translate(k)));
        i = i + 1;
    }
    assert forall|k: Key| #[trigger] table@[position_of(k) as int].0 == k by {
        lemma_every_key_listed(k);
    }
    table
}

} // verus!
