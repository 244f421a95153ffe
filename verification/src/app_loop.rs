//! The main loop's decisions: which layer of the interface a key goes to
//! (login page, delete dialog, song menu, help, downloads panel, details,
//! diagnostics, side bar, global keys, then the page), and what each
//! program action does to the state and asks of the outside world.

use vstd::prelude::*;
use crate::download::manager::KeySet;
use crate::navigation::{delete_confirmation_action, delete_confirmation_spec, toggle_step, DeleteConfirmationAction, NavTab, PlayStep};
use crate::notify::NotificationLevel;
use crate::pages::input::{KeyCode, KeyEvent};
use crate::pages::local_music::LocalDiagnosticsKind;
use crate::pages::status_bar::PlayerState;
use crate::config_migration::SourceCode;
use crate::text::{decimal_seq, join_chars, join_spec, nested_view, push_decimal, push_str, str_eq, string_of, trim, trim_seq};

verus! {

broadcast use vstd::string::group_string_axioms;

/// The overlays that take keys while open.
#[derive(Debug, Clone, Copy, PartialEq, Eq, Structural)]
pub enum Overlay {
    QrLogin,
    SongMenu,
    Help,
    Downloads,
    Details,
}

/// The search page's request state.
pub struct SearchState {
    pub searching: bool,
    pub keyword: String,
    pub source: String,
    /// The last page of results shown.
    pub page: u32,
}

/// What the main loop keeps between events.
pub struct AppState {
    pub tab: NavTab,
    pub qr_login_open: bool,
    /// A local file waits for its deletion to be confirmed.
    pub delete_pending: bool,
    pub diagnostics: Option<LocalDiagnosticsKind>,
    pub song_menu_open: bool,
    pub help_open: bool,
    pub downloads_open: bool,
    pub details_open: bool,
    /// The current play request; results of older ones are ignored.
    pub play_request: u64,
    pub search: SearchState,
    /// Song keys of the favorites.
    pub favorites: KeySet,
    pub quit: bool,
    /// The configured script source URLs, first tried first.
    pub js_sources: Vec<String>,
    /// The current script source request; answers to older ones are dropped.
    pub js_generation: u64,
    /// A source health check is running.
    pub health_checking: bool,
    /// The current local music scan; results of older scans are dropped.
    pub scan_generation: u64,
}

/// The main loop's state as values.
pub struct AppStateView {
    pub tab: NavTab,
    pub qr_login_open: bool,
    pub delete_pending: bool,
    pub diagnostics: Option<LocalDiagnosticsKind>,
    pub song_menu_open: bool,
    pub help_open: bool,
    pub downloads_open: bool,
    pub details_open: bool,
    pub play_request: u64,
    pub searching: bool,
    pub keyword: Seq<char>,
    pub source: Seq<char>,
    pub page: u32,
    pub favorites: Set<Seq<char>>,
    pub quit: bool,
    pub js_sources: Seq<Seq<char>>,
    pub js_generation: u64,
    pub health_checking: bool,
    pub scan_generation: u64,
}

impl View for AppState {
    type V = AppStateView;

    open spec fn view(&self) -> AppStateView {
        AppStateView {
            tab: self.tab,
            qr_login_open: self.qr_login_open,
            delete_pending: self.delete_pending,
            diagnostics: self.diagnostics,
            song_menu_open: self.song_menu_open,
            help_open: self.help_open,
            downloads_open: self.downloads_open,
            details_open: self.details_open,
            play_request: self.play_request,
            searching: self.search.searching,
            keyword: self.search.keyword@,
            source: self.search.source@,
            page: self.search.page,
            favorites: self.favorites@,
            quit: self.quit,
            js_sources: self.js_sources@.map_values(|u: String| u@),
            js_generation: self.js_generation,
            health_checking: self.health_checking,
            scan_generation: self.scan_generation,
        }
    }
}

/// A global key action, as the key bindings resolve it.
#[derive(Debug, Clone, Copy, PartialEq, Eq, Structural)]
pub enum GlobalAction {
    Quit,
    PlayPause,
    NextTrack,
    PrevTrack,
    CycleMode,
    /// Any other global action, carried out by the program.
    Other,
}

/// A program action.
pub enum AppAction {
    /// Search for `keyword` on `source`; `is_link` says whether it is a
    /// share link to parse instead.
    Search { keyword: String, source: String, is_link: bool },
    /// Load result page `page` of the current search.
    SearchMore { keyword: String, page: u32, source: String },
    /// A page of results arrived.
    SearchDone { page: u32 },
    /// Play entry `index` of a list.
    PlaySong { index: usize },
    /// Add or remove the song keyed `key` from the favorites.
    ToggleFavorite { key: String },
    DownloadSong,
    /// Playing request `request_id` failed; `next` is the queue entry to
    /// try after a failure, `failed` the name of the song that failed.
    PlaybackFailed { request_id: u64, error: String, next: Option<usize>, failed: Option<String> },
    ShowNotice { level: NotificationLevel, text: String },
    ClearHistory,
    /// The history store answered whether anything was cleared.
    HistoryCleared { removed: bool },
    OpenOverlay(Overlay),
    CloseOverlay(Overlay),
    /// Ask for the deletion of a local file to be confirmed.
    AskDelete,
    ShowDiagnostics(LocalDiagnosticsKind),
    /// Play entry `index` of a list after the previous song failed.
    PlaySongAfterFailure { index: usize },
    /// Play entry `index` of the queue.
    PlayFromQueue { index: usize },
    /// Play entry `index` of the queue after the previous song failed.
    PlayFromQueueAfterFailure { index: usize },
    /// A song was inserted into the queue at `position`, at index
    /// `inserted`; `was_empty` says whether the queue was empty before, and
    /// `current` is the queue's current entry after the insertion.
    AddToQueue {
        was_empty: bool,
        position: InsertPosition,
        inserted: usize,
        name: String,
        singer: String,
        current: Option<(usize, String, String)>,
    },
    /// Restore a saved session: entry `index` of `count` songs, at
    /// `position_ms`, playing or not, paused or not.
    RestorePlayback { index: usize, count: usize, position_ms: u64, start: bool, paused: bool },
    RemoveHistory,
    /// The history store answered whether the song `name` was removed.
    HistoryRemoved { removed: bool, name: String },
    /// Look up the parts of the video at entry `index`.
    ResolveBiliParts { index: usize },
    /// Looking up video parts failed; `current` says whether the request is
    /// still the page's latest.
    BiliPartsFailed { reason: PartsFailure, current: bool },
    /// Load a script source from `url`.
    ImportSource { url: String },
    /// The script source at `url` loaded, for request `generation`.
    SourceImported { url: String, generation: u64 },
    /// Saving the source list finished, with an error if it failed.
    JsConfigSaved { error: Option<String> },
    /// Loading a script source failed, for request `generation`.
    SourceImportFailed { error: String, generation: u64 },
    /// Remove the script source at `url`.
    RemoveSource { url: String },
    CheckSourceHealth,
    SourceHealthChecked { results: Vec<HealthResult> },
    /// Scan the local music folders (again, when `force`).
    ScanLocalMusic { force: bool },
    /// Scan `generation` finished with `errors` and `count` songs.
    ScanDone { generation: u64, errors: Vec<String>, count: u64 },
    ImportExternalPlaylist,
    PlaylistImported { report: ImportReport },
    ShowArtistDetails { singer: String },
    ShowAlbumDetails,
}

/// Where a song goes in the queue.
#[derive(Debug, Clone, Copy, PartialEq, Eq, Structural)]
pub enum InsertPosition {
    Next,
    End,
}

/// Why looking up a video's parts failed.
#[derive(Debug, Clone)]
pub enum PartsFailure {
    NoParts,
    Failed(String),
    TimedOut,
}

/// One source's health check.
#[derive(Debug, Clone)]
pub struct HealthResult {
    pub name: String,
    pub ok: bool,
    pub detail: String,
}

/// How importing a playlist file ended.
#[derive(Debug, Clone)]
pub enum ImportReport {
    Imported { name: String, imported: u64, skipped: u64 },
    Failed(String),
    TaskFailed(String),
}

/// What happened.
pub enum AppEvent {
    /// A key press; `text_input` says whether the page edits text,
    /// `page_owns_key` whether the page claims the key, `tab_key` the tab
    /// the side bar's keys name, `global` the global action bound to it, and
    /// `player` the player's state.
    Key {
        key: KeyEvent,
        text_input: bool,
        page_owns_key: bool,
        tab_key: Option<NavTab>,
        global: Option<GlobalAction>,
        player: PlayerState,
    },
    Action(AppAction),
}

/// What the loop asks of the outside world.
#[derive(Debug, Clone, PartialEq, Eq)]
pub enum AppEffect {
    /// Hand the key to the open overlay.
    RouteToOverlay(Overlay),
    /// Delete the local file that was confirmed.
    DeleteFile,
    /// Build the help overlay from the key bindings.
    BuildHelp,
    /// Hand the key to the global action `Other`.
    RunGlobal,
    /// Hand the key to the page.
    RouteToPage,
    /// Save the session, stop the player and leave.
    Quit,
    Play(PlayStep),
    NextTrack,
    PrevTrack,
    CycleMode,
    ParseLink { keyword: String },
    RunSearch { keyword: String, page: u32, source: String, append: bool },
    StartSong { index: usize, request_id: u64, after_failure: bool },
    StopPlayer,
    EnqueueDownload,
    ClearHistoryStore,
    Notify { level: NotificationLevel, text: String },
    StartQueueEntry { index: usize, request_id: u64, after_failure: bool },
    RestoreSong { index: usize, request_id: u64, position_ms: u64, paused: bool },
    /// Make the restored list the queue, current at `index`.
    SetQueue { index: usize },
    /// Forget the sources tried for the previous song.
    ResetSourceAttempts,
    /// Show entry `index` as the current song without playing it.
    SetCurrent { index: usize },
    RemoveHistoryStore,
    ResolveParts { index: usize },
    ImportJs { url: String, generation: u64 },
    SaveConfig,
    LoadJsSources { generation: u64 },
    SettingsStatus { text: String },
    SelectFirstSource,
    RunHealthCheck,
    StoreHealth,
    StartScan { generation: u64, force: bool },
    StartWatcher,
    ImportPlaylist,
    LoadArtist { name: String },
    LoadAlbum,
}

/// An effect as values.
pub enum EffectView {
    RouteToOverlay(Overlay),
    DeleteFile,
    BuildHelp,
    RunGlobal,
    RouteToPage,
    Quit,
    Play(PlayStep),
    NextTrack,
    PrevTrack,
    CycleMode,
    ParseLink { keyword: Seq<char> },
    RunSearch { keyword: Seq<char>, page: u32, source: Seq<char>, append: bool },
    StartSong { index: usize, request_id: u64, after_failure: bool },
    StopPlayer,
    EnqueueDownload,
    ClearHistoryStore,
    Notify { level: NotificationLevel, text: Seq<char> },
    StartQueueEntry { index: usize, request_id: u64, after_failure: bool },
    RestoreSong { index: usize, request_id: u64, position_ms: u64, paused: bool },
    SetQueue { index: usize },
    ResetSourceAttempts,
    SetCurrent { index: usize },
    RemoveHistoryStore,
    ResolveParts { index: usize },
    ImportJs { url: Seq<char>, generation: u64 },
    SaveConfig,
    LoadJsSources { generation: u64 },
    SettingsStatus { text: Seq<char> },
    SelectFirstSource,
    RunHealthCheck,
    StoreHealth,
    StartScan { generation: u64, force: bool },
    StartWatcher,
    ImportPlaylist,
    LoadArtist { name: Seq<char> },
    LoadAlbum,
}

impl View for AppEffect {
    type V = EffectView;

    open spec fn view(&self) -> EffectView {
        match self {
            AppEffect::RouteToOverlay(o) => EffectView::RouteToOverlay(*o),
            AppEffect::DeleteFile => EffectView::DeleteFile,
            AppEffect::BuildHelp => EffectView::BuildHelp,
            AppEffect::RunGlobal => EffectView::RunGlobal,
            AppEffect::RouteToPage => EffectView::RouteToPage,
            AppEffect::Quit => EffectView::Quit,
            AppEffect::Play(s) => EffectView::Play(*s),
            AppEffect::NextTrack => EffectView::NextTrack,
            AppEffect::PrevTrack => EffectView::PrevTrack,
            AppEffect::CycleMode => EffectView::CycleMode,
            AppEffect::ParseLink { keyword } => EffectView::ParseLink { keyword: keyword@ },
            AppEffect::RunSearch { keyword, page, source, append } => EffectView::RunSearch {
                keyword: keyword@,
                page: *page,
                source: source@,
                append: *append,
            },
            AppEffect::StartSong { index, request_id, after_failure } => EffectView::StartSong {
                index: *index,
                request_id: *request_id,
                after_failure: *after_failure,
            },
            AppEffect::StopPlayer => EffectView::StopPlayer,
            AppEffect::EnqueueDownload => EffectView::EnqueueDownload,
            AppEffect::ClearHistoryStore => EffectView::ClearHistoryStore,
            AppEffect::Notify { level, text } => EffectView::Notify { level: *level, text: text@ },
            AppEffect::StartQueueEntry { index, request_id, after_failure } => EffectView::StartQueueEntry {
                index: *index,
                request_id: *request_id,
                after_failure: *after_failure,
            },
            AppEffect::RestoreSong { index, request_id, position_ms, paused } => EffectView::RestoreSong {
                index: *index,
                request_id: *request_id,
                position_ms: *position_ms,
                paused: *paused,
            },
            AppEffect::SetQueue { index } => EffectView::SetQueue { index: *index },
            AppEffect::ResetSourceAttempts => EffectView::ResetSourceAttempts,
            AppEffect::SetCurrent { index } => EffectView::SetCurrent { index: *index },
            AppEffect::RemoveHistoryStore => EffectView::RemoveHistoryStore,
            AppEffect::ResolveParts { index } => EffectView::ResolveParts { index: *index },
            AppEffect::ImportJs { url, generation } => EffectView::ImportJs { url: url@, generation: *generation },
            AppEffect::SaveConfig => EffectView::SaveConfig,
            AppEffect::LoadJsSources { generation } => EffectView::LoadJsSources { generation: *generation },
            AppEffect::SettingsStatus { text } => EffectView::SettingsStatus { text: text@ },
            AppEffect::SelectFirstSource => EffectView::SelectFirstSource,
            AppEffect::RunHealthCheck => EffectView::RunHealthCheck,
            AppEffect::StoreHealth => EffectView::StoreHealth,
            AppEffect::StartScan { generation, force } => EffectView::StartScan { generation: *generation, force: *force },
            AppEffect::StartWatcher => EffectView::StartWatcher,
            AppEffect::ImportPlaylist => EffectView::ImportPlaylist,
            AppEffect::LoadArtist { name } => EffectView::LoadArtist { name: name@ },
            AppEffect::LoadAlbum => EffectView::LoadAlbum,
        }
    }
}

pub open spec fn effects_view(v: Seq<AppEffect>) -> Seq<EffectView> {
    v.map_values(|e: AppEffect| e@)
}

/// The next diagnostics list in the cycle.
pub open spec fn next_diagnostics(k: LocalDiagnosticsKind) -> LocalDiagnosticsKind {
    match k {
        LocalDiagnosticsKind::Corrupt => LocalDiagnosticsKind::Missing,
        LocalDiagnosticsKind::Missing => LocalDiagnosticsKind::Duplicates,
        LocalDiagnosticsKind::Duplicates => LocalDiagnosticsKind::Corrupt,
    }
}

/// Where a key goes. The first open layer takes it: the login page, the
/// delete dialog (`y` deletes, `n` or Esc cancels), the song menu, the help
/// overlay; `?` or `\` opens help unless text is being typed; then the
/// downloads panel, the details overlay and the diagnostics (Esc closes,
/// `i` shows the next list). Then, unless text is typed or the page claims
/// the key, a side bar key switches tab; unless the page claims it, a
/// global key acts (quitting and playback keys only outside text input);
/// the page gets the rest.
pub open spec fn key_step_spec(
    s: AppStateView,
    key: KeyEvent,
    text_input: bool,
    page_owns_key: bool,
    tab_key: Option<NavTab>,
    global: Option<GlobalAction>,
    player: PlayerState,
) -> (AppStateView, Seq<EffectView>) {
    if s.qr_login_open {
        (s, seq![EffectView::RouteToOverlay(Overlay::QrLogin)])
    } else if s.delete_pending {
        match delete_confirmation_spec(key) {
            DeleteConfirmationAction::Confirm => (AppStateView { delete_pending: false, ..s }, seq![EffectView::DeleteFile]),
            DeleteConfirmationAction::Cancel => (AppStateView { delete_pending: false, ..s }, Seq::empty()),
            DeleteConfirmationAction::Ignore => (s, Seq::empty()),
        }
    } else if s.song_menu_open {
        (s, seq![EffectView::RouteToOverlay(Overlay::SongMenu)])
    } else if s.help_open {
        (s, seq![EffectView::RouteToOverlay(Overlay::Help)])
    } else if !text_input && (key.plain(KeyCode::Char('?')) || key.plain(KeyCode::Char('\\'))) {
        (AppStateView { help_open: true, ..s }, seq![EffectView::BuildHelp])
    } else if s.downloads_open {
        (s, seq![EffectView::RouteToOverlay(Overlay::Downloads)])
    } else if s.details_open {
        (s, seq![EffectView::RouteToOverlay(Overlay::Details)])
    } else if s.diagnostics is Some {
        if key.plain(KeyCode::Esc) {
            (AppStateView { diagnostics: None, ..s }, Seq::empty())
        } else if key.plain(KeyCode::Char('i')) || key.plain(KeyCode::Char('I')) {
            (AppStateView { diagnostics: Some(next_diagnostics(s.diagnostics->0)), ..s }, Seq::empty())
        } else {
            (s, Seq::empty())
        }
    } else if !text_input && !page_owns_key && tab_key is Some {
        (AppStateView { tab: tab_key->0, ..s }, Seq::empty())
    } else if !page_owns_key && global is Some && global_applies(global->0, text_input) {
        match global->0 {
            GlobalAction::Quit => (AppStateView { quit: true, ..s }, seq![EffectView::Quit]),
            GlobalAction::PlayPause => (s, seq![EffectView::Play(toggle_step_spec(player))]),
            GlobalAction::NextTrack => (s, seq![EffectView::NextTrack]),
            GlobalAction::PrevTrack => (s, seq![EffectView::PrevTrack]),
            GlobalAction::CycleMode => (s, seq![EffectView::CycleMode]),
            GlobalAction::Other => (s, seq![EffectView::RunGlobal]),
        }
    } else {
        (s, seq![EffectView::RouteToPage])
    }
}

/// Whether a global action acts: the player and quit keys not while text
/// is typed.
pub open spec fn global_applies(g: GlobalAction, text_input: bool) -> bool {
    match g {
        GlobalAction::Other => true,
        _ => !text_input,
    }
}

/// What the play key asks of the player.
pub open spec fn toggle_step_spec(state: PlayerState) -> PlayStep {
    match state {
        PlayerState::Playing | PlayerState::Loading => PlayStep::Pause,
        PlayerState::Paused => PlayStep::Resume,
        PlayerState::Idle | PlayerState::Stopped => PlayStep::StartCurrent,
    }
}

/// The text of a playback failure: the song is skipped when the queue has
/// another entry to try, else the queue has nothing left to play.
pub open spec fn playback_failed_text(error: Seq<char>, failed: Option<Seq<char>>, skipped: bool) -> Seq<char> {
    if skipped {
        error + "；已跳过 "@ + match failed {
            Some(f) => f,
            None => "当前歌曲"@,
        }
    } else {
        error + "；队列中没有更多可播放歌曲"@
    }
}

/// What a program action does. A search marks the page searching and
/// either parses a share link or searches from page one; a further page is
/// loaded only when no search runs, the keyword and source match, and it
/// is the next page. Playing an entry starts a new play request. A
/// favorite is removed when present, else added. A failure of the current
/// play request stops the player and skips to the next queue entry when
/// there is one; failures of older requests are ignored.
pub open spec fn action_step_spec(s: AppStateView, a: AppActionView) -> (AppStateView, Seq<EffectView>) {
    match a {
        AppActionView::Search { keyword, source, is_link } => (
            AppStateView { searching: true, keyword, source, page: 1, ..s },
            if is_link {
                seq![EffectView::ParseLink { keyword }]
            } else {
                seq![EffectView::RunSearch { keyword, page: 1, source, append: false }]
            },
        ),
        AppActionView::SearchMore { keyword, page, source } => if s.searching || keyword != s.keyword || source
            != s.source || page != s.page + 1 {
            (s, Seq::empty())
        } else {
            (
                AppStateView { searching: true, ..s },
                seq![EffectView::RunSearch { keyword, page, source, append: true }],
            )
        },
        AppActionView::SearchDone { page } => (AppStateView { searching: false, page, ..s }, Seq::empty()),
        AppActionView::PlaySong { index } => {
            let r = (s.play_request + 1) as u64;
            (
                AppStateView { play_request: r, ..s },
                seq![EffectView::StartSong { index, request_id: r, after_failure: false }],
            )
        },
        AppActionView::ToggleFavorite { key } => if s.favorites.contains(key) {
            (
                AppStateView { favorites: s.favorites.remove(key), ..s },
                seq![EffectView::Notify { level: NotificationLevel::Success, text: "已取消收藏"@ }],
            )
        } else {
            (
                AppStateView { favorites: s.favorites.insert(key), ..s },
                seq![EffectView::Notify { level: NotificationLevel::Success, text: "已添加收藏"@ }],
            )
        },
        AppActionView::DownloadSong => (s, seq![EffectView::EnqueueDownload]),
        AppActionView::PlaybackFailed { request_id, error, next, failed } => if request_id != s.play_request {
            (s, Seq::empty())
        } else {
            match next {
                Some(i) => {
                    let r = (s.play_request + 1) as u64;
                    (
                        AppStateView { play_request: r, ..s },
                        seq![
                            EffectView::StopPlayer,
                            EffectView::Notify { level: NotificationLevel::Warn, text: playback_failed_text(error, failed, true) },
                            EffectView::StartSong { index: i, request_id: r, after_failure: true },
                        ],
                    )
                },
                None => (
                    s,
                    seq![
                        EffectView::StopPlayer,
                        EffectView::Notify { level: NotificationLevel::Error, text: playback_failed_text(error, failed, false) },
                    ],
                ),
            }
        },
        AppActionView::ShowNotice { level, text } => (s, seq![EffectView::Notify { level, text }]),
        AppActionView::ClearHistory => (s, seq![EffectView::ClearHistoryStore]),
        AppActionView::HistoryCleared { removed } => (
            s,
            seq![
                if removed {
                    EffectView::Notify { level: NotificationLevel::Success, text: "播放历史已清空"@ }
                } else {
                    EffectView::Notify { level: NotificationLevel::Info, text: "播放历史已经是空的"@ }
                },
            ],
        ),
        AppActionView::OpenOverlay(o) => (set_overlay(s, o, true), Seq::empty()),
        AppActionView::CloseOverlay(o) => (set_overlay(s, o, false), Seq::empty()),
        AppActionView::AskDelete => (AppStateView { delete_pending: true, ..s }, Seq::empty()),
        AppActionView::ShowDiagnostics(k) => (AppStateView { diagnostics: Some(k), ..s }, Seq::empty()),
        _ => more_action_spec(s, a),
    }
}

pub open spec fn set_overlay(s: AppStateView, o: Overlay, open: bool) -> AppStateView {
    match o {
        Overlay::QrLogin => AppStateView { qr_login_open: open, ..s },
        Overlay::SongMenu => AppStateView { song_menu_open: open, ..s },
        Overlay::Help => AppStateView { help_open: open, ..s },
        Overlay::Downloads => AppStateView { downloads_open: open, ..s },
        Overlay::Details => AppStateView { details_open: open, ..s },
    }
}

/// A program action as values.
pub enum AppActionView {
    Search { keyword: Seq<char>, source: Seq<char>, is_link: bool },
    SearchMore { keyword: Seq<char>, page: u32, source: Seq<char> },
    SearchDone { page: u32 },
    PlaySong { index: usize },
    ToggleFavorite { key: Seq<char> },
    DownloadSong,
    PlaybackFailed { request_id: u64, error: Seq<char>, next: Option<usize>, failed: Option<Seq<char>> },
    ShowNotice { level: NotificationLevel, text: Seq<char> },
    ClearHistory,
    HistoryCleared { removed: bool },
    OpenOverlay(Overlay),
    CloseOverlay(Overlay),
    AskDelete,
    ShowDiagnostics(LocalDiagnosticsKind),
    PlaySongAfterFailure { index: usize },
    PlayFromQueue { index: usize },
    PlayFromQueueAfterFailure { index: usize },
    AddToQueue {
        was_empty: bool,
        position: InsertPosition,
        inserted: usize,
        name: Seq<char>,
        singer: Seq<char>,
        current: Option<(usize, Seq<char>, Seq<char>)>,
    },
    RestorePlayback { index: usize, count: usize, position_ms: u64, start: bool, paused: bool },
    RemoveHistory,
    HistoryRemoved { removed: bool, name: Seq<char> },
    ResolveBiliParts { index: usize },
    BiliPartsFailed { reason: Option<Option<Seq<char>>>, current: bool },
    ImportSource { url: Seq<char> },
    SourceImported { url: Seq<char>, generation: u64 },
    JsConfigSaved { error: Option<Seq<char>> },
    SourceImportFailed { error: Seq<char>, generation: u64 },
    RemoveSource { url: Seq<char> },
    CheckSourceHealth,
    SourceHealthChecked { results: Seq<(Seq<char>, bool, Seq<char>)> },
    ScanLocalMusic { force: bool },
    ScanDone { generation: u64, errors: Seq<Seq<char>>, count: u64 },
    ImportExternalPlaylist,
    PlaylistImported { report: Result<(Seq<char>, u64, u64), (bool, Seq<char>)> },
    ShowArtistDetails { singer: Seq<char> },
    ShowAlbumDetails,
}

/// A failure to look up parts as values: `None` when there were none,
/// `Some(None)` on a timeout, `Some(Some(e))` on error `e`.
pub open spec fn parts_failure_view(f: PartsFailure) -> Option<Option<Seq<char>>> {
    match f {
        PartsFailure::NoParts => None,
        PartsFailure::TimedOut => Some(None),
        PartsFailure::Failed(e) => Some(Some(e@)),
    }
}

/// An import report as values: the playlist, or whether the task itself
/// failed and the error.
pub open spec fn import_report_view(r: ImportReport) -> Result<(Seq<char>, u64, u64), (bool, Seq<char>)> {
    match r {
        ImportReport::Imported { name, imported, skipped } => Ok((name@, imported, skipped)),
        ImportReport::Failed(e) => Err((false, e@)),
        ImportReport::TaskFailed(e) => Err((true, e@)),
    }
}

pub open spec fn health_view(r: Seq<HealthResult>) -> Seq<(Seq<char>, bool, Seq<char>)> {
    r.map_values(|h: HealthResult| (h.name@, h.ok, h.detail@))
}

impl View for AppAction {
    type V = AppActionView;

    open spec fn view(&self) -> AppActionView {
        match self {
            AppAction::Search { keyword, source, is_link } => AppActionView::Search {
                keyword: keyword@,
                source: source@,
                is_link: *is_link,
            },
            AppAction::SearchMore { keyword, page, source } => AppActionView::SearchMore {
                keyword: keyword@,
                page: *page,
                source: source@,
            },
            AppAction::SearchDone { page } => AppActionView::SearchDone { page: *page },
            AppAction::PlaySong { index } => AppActionView::PlaySong { index: *index },
            AppAction::ToggleFavorite { key } => AppActionView::ToggleFavorite { key: key@ },
            AppAction::DownloadSong => AppActionView::DownloadSong,
            AppAction::PlaybackFailed { request_id, error, next, failed } => AppActionView::PlaybackFailed {
                request_id: *request_id,
                error: error@,
                next: *next,
                failed: match failed {
                    Some(f) => Some(f@),
                    None => None,
                },
            },
            AppAction::ShowNotice { level, text } => AppActionView::ShowNotice { level: *level, text: text@ },
            AppAction::ClearHistory => AppActionView::ClearHistory,
            AppAction::HistoryCleared { removed } => AppActionView::HistoryCleared { removed: *removed },
            AppAction::OpenOverlay(o) => AppActionView::OpenOverlay(*o),
            AppAction::CloseOverlay(o) => AppActionView::CloseOverlay(*o),
            AppAction::AskDelete => AppActionView::AskDelete,
            AppAction::ShowDiagnostics(k) => AppActionView::ShowDiagnostics(*k),
            AppAction::PlaySongAfterFailure { index } => AppActionView::PlaySongAfterFailure { index: *index },
            AppAction::PlayFromQueue { index } => AppActionView::PlayFromQueue { index: *index },
            AppAction::PlayFromQueueAfterFailure { index } => AppActionView::PlayFromQueueAfterFailure { index: *index },
            AppAction::AddToQueue { was_empty, position, inserted, name, singer, current } => AppActionView::AddToQueue {
                was_empty: *was_empty,
                position: *position,
                inserted: *inserted,
                name: name@,
                singer: singer@,
                current: match current {
                    Some((i, n, g)) => Some((*i, n@, g@)),
                    None => None,
                },
            },
            AppAction::RestorePlayback { index, count, position_ms, start, paused } => AppActionView::RestorePlayback {
                index: *index,
                count: *count,
                position_ms: *position_ms,
                start: *start,
                paused: *paused,
            },
            AppAction::RemoveHistory => AppActionView::RemoveHistory,
            AppAction::HistoryRemoved { removed, name } => AppActionView::HistoryRemoved { removed: *removed, name: name@ },
            AppAction::ResolveBiliParts { index } => AppActionView::ResolveBiliParts { index: *index },
            AppAction::BiliPartsFailed { reason, current } => AppActionView::BiliPartsFailed {
                reason: parts_failure_view(*reason),
                current: *current,
            },
            AppAction::ImportSource { url } => AppActionView::ImportSource { url: url@ },
            AppAction::SourceImported { url, generation } => AppActionView::SourceImported {
                url: url@,
                generation: *generation,
            },
            AppAction::JsConfigSaved { error } => AppActionView::JsConfigSaved {
                error: match error {
                    Some(e) => Some(e@),
                    None => None,
                },
            },
            AppAction::SourceImportFailed { error, generation } => AppActionView::SourceImportFailed {
                error: error@,
                generation: *generation,
            },
            AppAction::RemoveSource { url } => AppActionView::RemoveSource { url: url@ },
            AppAction::CheckSourceHealth => AppActionView::CheckSourceHealth,
            AppAction::SourceHealthChecked { results } => AppActionView::SourceHealthChecked { results: health_view(results@) },
            AppAction::ScanLocalMusic { force } => AppActionView::ScanLocalMusic { force: *force },
            AppAction::ScanDone { generation, errors, count } => AppActionView::ScanDone {
                generation: *generation,
                errors: errors@.map_values(|e: String| e@),
                count: *count,
            },
            AppAction::ImportExternalPlaylist => AppActionView::ImportExternalPlaylist,
            AppAction::PlaylistImported { report } => AppActionView::PlaylistImported { report: import_report_view(*report) },
            AppAction::ShowArtistDetails { singer } => AppActionView::ShowArtistDetails { singer: singer@ },
            AppAction::ShowAlbumDetails => AppActionView::ShowAlbumDetails,
        }
    }
}

/// An event as values.
pub enum AppEventView {
    Key {
        key: KeyEvent,
        text_input: bool,
        page_owns_key: bool,
        tab_key: Option<NavTab>,
        global: Option<GlobalAction>,
        player: PlayerState,
    },
    Action(AppActionView),
}

impl View for AppEvent {
    type V = AppEventView;

    open spec fn view(&self) -> AppEventView {
        match self {
            AppEvent::Key { key, text_input, page_owns_key, tab_key, global, player } => AppEventView::Key {
                key: *key,
                text_input: *text_input,
                page_owns_key: *page_owns_key,
                tab_key: *tab_key,
                global: *global,
                player: *player,
            },
            AppEvent::Action(a) => AppEventView::Action(a@),
        }
    }
}

/// One step of the main loop.
pub open spec fn app_step_spec(s: AppStateView, e: AppEventView) -> (AppStateView, Seq<EffectView>) {
    match e {
        AppEventView::Key { key, text_input, page_owns_key, tab_key, global, player } => key_step_spec(
            s,
            key,
            text_input,
            page_owns_key,
            tab_key,
            global,
            player,
        ),
        AppEventView::Action(a) => action_step_spec(s, a),
    }
}

fn one(e: AppEffect) -> (v: Vec<AppEffect>)
    ensures
        effects_view(v@) == seq![e@],
{
    let mut v = Vec::new();
    v.push(e);
    assert(effects_view(v@) =~= seq![e@]);
    v
}

fn none() -> (v: Vec<AppEffect>)
    ensures
        effects_view(v@) == Seq::<EffectView>::empty(),
{
    let v: Vec<AppEffect> = Vec::new();
    assert(effects_view(v@) =~= Seq::<EffectView>::empty());
    v
}

fn plain_key(k: &KeyEvent, code: KeyCode) -> (r: bool)
    ensures
        r == k.plain(code),
{
    !k.modifiers.shift && !k.modifiers.control && !k.modifiers.alt && !k.modifiers.other && k.code == code
}

fn key_step(
    state: &mut AppState,
    key: KeyEvent,
    text_input: bool,
    page_owns_key: bool,
    tab_key: Option<NavTab>,
    global: Option<GlobalAction>,
    player: PlayerState,
) -> (effects: Vec<AppEffect>)
    ensures
        (final(state)@, effects_view(effects@)) == key_step_spec(
            old(state)@,
            key,
            text_input,
            page_owns_key,
            tab_key,
            global,
            player,
        ),
{
    if state.qr_login_open {
        return one(AppEffect::RouteToOverlay(Overlay::QrLogin));
    }
    if state.delete_pending {
        let d = delete_confirmation_action(&key);
        assert(d == delete_confirmation_spec(key));
        return match d {
            DeleteConfirmationAction::Confirm => {
                state.delete_pending = false;
                one(AppEffect::DeleteFile)
            },
            DeleteConfirmationAction::Cancel => {
                state.delete_pending = false;
                none()
            },
            DeleteConfirmationAction::Ignore => none(),
        };
    }
    if state.song_menu_open {
        return one(AppEffect::RouteToOverlay(Overlay::SongMenu));
    }
    if state.help_open {
        return one(AppEffect::RouteToOverlay(Overlay::Help));
    }
    if !text_input && (plain_key(&key, KeyCode::Char('?')) || plain_key(&key, KeyCode::Char('\\'))) {
        state.help_open = true;
        return one(AppEffect::BuildHelp);
    }
    if state.downloads_open {
        return one(AppEffect::RouteToOverlay(Overlay::Downloads));
    }
    if state.details_open {
        return one(AppEffect::RouteToOverlay(Overlay::Details));
    }
    if let Some(kind) = state.diagnostics {
        if plain_key(&key, KeyCode::Esc) {
            state.diagnostics = None;
        } else if plain_key(&key, KeyCode::Char('i')) || plain_key(&key, KeyCode::Char('I')) {
            state.diagnostics = Some(
                match kind {
                    LocalDiagnosticsKind::Corrupt => LocalDiagnosticsKind::Missing,
                    LocalDiagnosticsKind::Missing => LocalDiagnosticsKind::Duplicates,
                    LocalDiagnosticsKind::Duplicates => LocalDiagnosticsKind::Corrupt,
                },
            );
        }
        return none();
    }
    if !text_input && !page_owns_key {
        if let Some(t) = tab_key {
            state.tab = t;
            return none();
        }
    }
    if !page_owns_key {
        if let Some(g) = global {
            let applies = match g {
                GlobalAction::Other => true,
                _ => !text_input,
            };
            if applies {
                return match g {
                    GlobalAction::Quit => {
                        state.quit = true;
                        one(AppEffect::Quit)
                    },
                    GlobalAction::PlayPause => one(AppEffect::Play(toggle_step(player))),
                    GlobalAction::NextTrack => one(AppEffect::NextTrack),
                    GlobalAction::PrevTrack => one(AppEffect::PrevTrack),
                    GlobalAction::CycleMode => one(AppEffect::CycleMode),
                    GlobalAction::Other => one(AppEffect::RunGlobal),
                };
            }
        }
    }
    one(AppEffect::RouteToPage)
}

/// Carries out a program action on the loop's state and says what the
/// outside world must do.
#[verifier::rlimit(100)]
pub fn apply_action(state: &mut AppState, action: AppAction) -> (effects: Vec<AppEffect>)
    requires
        old(state).play_request < u64::MAX,
        old(state).js_generation < u64::MAX,
        old(state).scan_generation < u64::MAX,
        action matches AppAction::SearchMore { .. } ==> old(state).search.page < u32::MAX,
    ensures
        (final(state)@, effects_view(effects@)) == action_step_spec(old(state)@, action@),
{
    match action {
        AppAction::Search { keyword, source, is_link } => {
            state.search.searching = true;
            state.search.keyword = keyword.clone();
            state.search.source = source.clone();
            state.search.page = 1;
            if is_link {
                one(AppEffect::ParseLink { keyword })
            } else {
                one(AppEffect::RunSearch { keyword, page: 1, source, append: false })
            }
        },
        AppAction::SearchMore { keyword, page, source } => {
            if state.search.searching || !str_eq(keyword.as_str(), state.search.keyword.as_str()) || !str_eq(
                source.as_str(),
                state.search.source.as_str(),
            ) || page != state.search.page + 1 {
                return none();
            }
            state.search.searching = true;
            one(AppEffect::RunSearch { keyword, page, source, append: true })
        },
        AppAction::SearchDone { page } => {
            state.search.searching = false;
            state.search.page = page;
            none()
        },
        AppAction::PlaySong { index } => {
            state.play_request = state.play_request + 1;
            one(AppEffect::StartSong { index, request_id: state.play_request, after_failure: false })
        },
        AppAction::ToggleFavorite { key } => {
            if state.favorites.contains(key.as_str()) {
                state.favorites.remove(key.as_str());
                one(AppEffect::Notify { level: NotificationLevel::Success, text: string_of("已取消收藏") })
            } else {
                state.favorites.insert(key.as_str());
                one(AppEffect::Notify { level: NotificationLevel::Success, text: string_of("已添加收藏") })
            }
        },
        AppAction::DownloadSong => one(AppEffect::EnqueueDownload),
        AppAction::PlaybackFailed { request_id, error, next, failed } => {
            if request_id != state.play_request {
                return none();
            }
            let mut text = error.clone();
            let ghost fv = match &failed {
                Some(f) => Some(f@),
                None => None,
            };
            match next {
                Some(i) => {
                    push_str(&mut text, "；已跳过 ");
                    match &failed {
                        Some(f) => push_str(&mut text, f.as_str()),
                        None => push_str(&mut text, "当前歌曲"),
                    }
                    assert(text@ == playback_failed_text(error@, fv, true));
                    state.play_request = state.play_request + 1;
                    let mut v = Vec::new();
                    v.push(AppEffect::StopPlayer);
                    v.push(AppEffect::Notify { level: NotificationLevel::Warn, text });
                    v.push(AppEffect::StartSong { index: i, request_id: state.play_request, after_failure: true });
                    assert(effects_view(v@) =~= seq![
                        EffectView::StopPlayer,
                        EffectView::Notify { level: NotificationLevel::Warn, text: playback_failed_text(error@, fv, true) },
                        EffectView::StartSong { index: i, request_id: state.play_request, after_failure: true },
                    ]);
                    v
                },
                None => {
                    push_str(&mut text, "；队列中没有更多可播放歌曲");
                    let mut v = Vec::new();
                    v.push(AppEffect::StopPlayer);
                    v.push(AppEffect::Notify { level: NotificationLevel::Error, text });
                    assert(effects_view(v@) =~= seq![
                        EffectView::StopPlayer,
                        EffectView::Notify { level: NotificationLevel::Error, text: playback_failed_text(error@, fv, false) },
                    ]);
                    v
                },
            }
        },
        AppAction::ShowNotice { level, text } => one(AppEffect::Notify { level, text }),
        AppAction::ClearHistory => one(AppEffect::ClearHistoryStore),
        AppAction::HistoryCleared { removed } => {
            if removed {
                one(AppEffect::Notify { level: NotificationLevel::Success, text: string_of("播放历史已清空") })
            } else {
                one(AppEffect::Notify { level: NotificationLevel::Info, text: string_of("播放历史已经是空的") })
            }
        },
        AppAction::OpenOverlay(o) => {
            set_overlay_flag(state, o, true);
            none()
        },
        AppAction::CloseOverlay(o) => {
            set_overlay_flag(state, o, false);
            none()
        },
        AppAction::AskDelete => {
            state.delete_pending = true;
            none()
        },
        AppAction::ShowDiagnostics(k) => {
            state.diagnostics = Some(k);
            none()
        },
        other => apply_more(state, other),
    }
}

/// What inserting a song into the queue does.
#[derive(Debug, Clone, Copy, PartialEq, Eq, Structural)]
pub enum EnqueueOutcome {
    /// The queue was empty: its current entry starts playing.
    StartPlaying,
    /// The song was added to the queue.
    Queued,
    /// The song plays next.
    PlaysNext,
}

/// A song inserted into an empty queue starts it (when the queue has a
/// current entry); otherwise a song put "next" at a place other than the
/// first plays next, and any other is simply queued.
pub open spec fn enqueue_outcome_spec(was_empty: bool, has_current: bool, position: InsertPosition, inserted: usize) -> EnqueueOutcome {
    if was_empty && has_current {
        EnqueueOutcome::StartPlaying
    } else if position == InsertPosition::Next && inserted != 0 {
        EnqueueOutcome::PlaysNext
    } else {
        EnqueueOutcome::Queued
    }
}

/// What inserting a song into the queue does.
pub fn enqueue_outcome(was_empty: bool, has_current: bool, position: InsertPosition, inserted: usize) -> (r: EnqueueOutcome)
    ensures
        r == enqueue_outcome_spec(was_empty, has_current, position, inserted),
{
    if was_empty && has_current {
        EnqueueOutcome::StartPlaying
    } else if position == InsertPosition::Next && inserted != 0 {
        EnqueueOutcome::PlaysNext
    } else {
        EnqueueOutcome::Queued
    }
}

/// Whether a song must first be looked up for its video parts: a bilibili
/// song that names no part and was not looked up yet.
pub fn should_expand_bili_parts(source: SourceCode, has_page: bool, parts_checked: bool) -> (r: bool)
    ensures
        r == (source == SourceCode::Bili && !has_page && !parts_checked),
{
    source == SourceCode::Bili && !has_page && !parts_checked
}

/// `s` without `x`.
pub open spec fn without(s: Seq<Seq<char>>, x: Seq<char>) -> Seq<Seq<char>>
    decreases s.len(),
{
    if s.len() == 0 {
        s
    } else if s.last() == x {
        without(s.drop_last(), x)
    } else {
        without(s.drop_last(), x).push(s.last())
    }
}

/// How many sources answered.
pub open spec fn healthy_count(r: Seq<(Seq<char>, bool, Seq<char>)>) -> nat
    decreases r.len(),
{
    if r.len() == 0 {
        0
    } else {
        healthy_count(r.drop_last()) + if r.last().1 { 1nat } else { 0nat }
    }
}

/// `name: detail` of each source that failed, in order.
pub open spec fn health_failures(r: Seq<(Seq<char>, bool, Seq<char>)>) -> Seq<Seq<char>>
    decreases r.len(),
{
    if r.len() == 0 {
        Seq::empty()
    } else if r.last().1 {
        health_failures(r.drop_last())
    } else {
        health_failures(r.drop_last()).push(r.last().0 + ": "@ + r.last().2)
    }
}

pub open spec fn health_summary(r: Seq<(Seq<char>, bool, Seq<char>)>) -> Seq<char> {
    "音源检测完成："@ + decimal_seq(healthy_count(r)) + "/"@ + decimal_seq(r.len()) + " 可用"@
}

/// The settings page's line after a health check: the summary, then the
/// failures when there are any.
pub open spec fn health_status(r: Seq<(Seq<char>, bool, Seq<char>)>) -> Seq<char> {
    if health_failures(r).len() == 0 {
        health_summary(r)
    } else {
        health_summary(r) + "；失败："@ + join_spec(health_failures(r), "；"@)
    }
}

/// The notices of a scan's errors, one for each.
pub open spec fn error_notices(errors: Seq<Seq<char>>) -> Seq<EffectView> {
    errors.map_values(|e: Seq<char>| EffectView::Notify { level: NotificationLevel::Error, text: e })
}

/// The remaining program actions: playing from lists and the queue, queue
/// insertions, restoring a session, history removal, video parts, script
/// sources, source health, local music scans, playlist imports and the
/// details pages.
pub open spec fn more_action_spec(s: AppStateView, a: AppActionView) -> (AppStateView, Seq<EffectView>) {
    let next = (s.play_request + 1) as u64;
    match a {
        AppActionView::PlaySongAfterFailure { index } => (
            AppStateView { play_request: next, ..s },
            seq![EffectView::StartSong { index, request_id: next, after_failure: true }],
        ),
        AppActionView::PlayFromQueue { index } => (
            AppStateView { play_request: next, ..s },
            seq![EffectView::StartQueueEntry { index, request_id: next, after_failure: false }],
        ),
        AppActionView::PlayFromQueueAfterFailure { index } => (
            AppStateView { play_request: next, ..s },
            seq![EffectView::StartQueueEntry { index, request_id: next, after_failure: true }],
        ),
        AppActionView::AddToQueue { was_empty, position, inserted, name, singer, current } => match enqueue_outcome_spec(
            was_empty,
            current is Some,
            position,
            inserted,
        ) {
            EnqueueOutcome::StartPlaying => {
                let (ci, cn, cs) = current->0;
                (
                    AppStateView { play_request: next, ..s },
                    seq![
                        EffectView::StartQueueEntry { index: ci, request_id: next, after_failure: false },
                        EffectView::Notify { level: NotificationLevel::Success, text: "开始播放: "@ + cn + " - "@ + cs },
                    ],
                )
            },
            EnqueueOutcome::PlaysNext => (
                s,
                seq![EffectView::Notify { level: NotificationLevel::Success, text: "下一首播放: "@ + name + " - "@ + singer }],
            ),
            EnqueueOutcome::Queued => (
                s,
                seq![EffectView::Notify { level: NotificationLevel::Success, text: "已加入队列: "@ + name + " - "@ + singer }],
            ),
        },
        AppActionView::RestorePlayback { index, count, position_ms, start, paused } => if index >= count {
            (s, Seq::empty())
        } else if start {
            (
                AppStateView { play_request: next, ..s },
                seq![
                    EffectView::SetQueue { index },
                    EffectView::ResetSourceAttempts,
                    EffectView::RestoreSong { index, request_id: next, position_ms, paused },
                ],
            )
        } else {
            (
                s,
                seq![
                    EffectView::SetQueue { index },
                    EffectView::ResetSourceAttempts,
                    EffectView::StopPlayer,
                    EffectView::SetCurrent { index },
                ],
            )
        },
        AppActionView::RemoveHistory => (s, seq![EffectView::RemoveHistoryStore]),
        AppActionView::HistoryRemoved { removed, name } => if removed {
            (s, seq![EffectView::Notify { level: NotificationLevel::Success, text: "已删除历史记录: "@ + name }])
        } else {
            (s, Seq::empty())
        },
        AppActionView::ResolveBiliParts { index } => (s, seq![EffectView::ResolveParts { index }]),
        AppActionView::BiliPartsFailed { reason, current } => if !current {
            (s, Seq::empty())
        } else {
            (
                s,
                seq![
                    EffectView::Notify {
                        level: NotificationLevel::Warn,
                        text: match reason {
                            None => "未找到可播放的分 P"@,
                            Some(None) => "分 P 解析超时"@,
                            Some(Some(e)) => "分 P 解析失败: "@ + e,
                        },
                    },
                ],
            )
        },
        AppActionView::ImportSource { url } => {
            let g = (s.js_generation + 1) as u64;
            (AppStateView { js_generation: g, ..s }, seq![EffectView::ImportJs { url, generation: g }])
        },
        AppActionView::SourceImported { url, generation } => if generation != s.js_generation {
            (s, Seq::empty())
        } else {
            (
                AppStateView { js_sources: seq![url] + without(s.js_sources, url), ..s },
                seq![
                    EffectView::SelectFirstSource,
                    EffectView::SettingsStatus { text: "✓ 音源已加载并启用"@ },
                    EffectView::SaveConfig,
                ],
            )
        },
        AppActionView::JsConfigSaved { error } => match error {
            Some(e) => (
                s,
                seq![
                    EffectView::SettingsStatus { text: "✗ 音源已启用，但保存配置失败: "@ + e },
                    EffectView::Notify { level: NotificationLevel::Error, text: "保存 JS 音源配置失败: "@ + e },
                ],
            ),
            None => {
                let g = (s.js_generation + 1) as u64;
                (
                    AppStateView { js_generation: g, ..s },
                    seq![
                        EffectView::LoadJsSources { generation: g },
                        EffectView::Notify { level: NotificationLevel::Success, text: "JS 音源配置已更新，正在加载全部脚本"@ },
                    ],
                )
            },
        },
        AppActionView::SourceImportFailed { error, generation } => if generation != s.js_generation {
            (s, Seq::empty())
        } else {
            (
                s,
                seq![
                    EffectView::SettingsStatus { text: "✗ 音源加载失败: "@ + error },
                    EffectView::Notify { level: NotificationLevel::Error, text: "JS 音源导入失败: "@ + error },
                ],
            )
        },
        AppActionView::RemoveSource { url } => {
            let g = (s.js_generation + 1) as u64;
            (
                AppStateView { js_generation: g, js_sources: without(s.js_sources, url), ..s },
                seq![
                    EffectView::SaveConfig,
                    EffectView::LoadJsSources { generation: g },
                    EffectView::Notify { level: NotificationLevel::Success, text: "已移除音源"@ },
                ],
            )
        },
        AppActionView::CheckSourceHealth => if s.health_checking {
            (s, Seq::empty())
        } else {
            (AppStateView { health_checking: true, ..s }, seq![EffectView::RunHealthCheck])
        },
        AppActionView::SourceHealthChecked { results } => (
            AppStateView { health_checking: false, ..s },
            seq![
                EffectView::StoreHealth,
                EffectView::SettingsStatus { text: health_status(results) },
                EffectView::Notify { level: NotificationLevel::Info, text: health_summary(results) },
            ],
        ),
        AppActionView::ScanLocalMusic { force } => {
            let g = (s.scan_generation + 1) as u64;
            (AppStateView { scan_generation: g, ..s }, seq![EffectView::StartScan { generation: g, force }])
        },
        AppActionView::ScanDone { generation, errors, count } => if generation != s.scan_generation {
            (s, Seq::empty())
        } else if errors.len() == 0 {
            let m = "本地音乐扫描完成，共 "@ + decimal_seq(count as nat) + " 首"@;
            (
                s,
                seq![
                    EffectView::StartWatcher,
                    EffectView::SettingsStatus { text: m },
                    EffectView::Notify { level: NotificationLevel::Success, text: m },
                ],
            )
        } else {
            (
                s,
                seq![EffectView::StartWatcher, EffectView::SettingsStatus { text: "扫描错误: "@ + join_spec(errors, "; "@) }]
                    + error_notices(errors),
            )
        },
        AppActionView::ImportExternalPlaylist => (s, seq![EffectView::ImportPlaylist]),
        AppActionView::PlaylistImported { report } => (
            s,
            seq![
                match report {
                    Ok((name, imported, skipped)) => EffectView::Notify {
                        level: NotificationLevel::Success,
                        text: "已导入歌单 "@ + name + "："@ + decimal_seq(imported as nat) + " 首，跳过 "@ + decimal_seq(
                            skipped as nat,
                        ) + " 首"@,
                    },
                    Err((task, e)) => EffectView::Notify {
                        level: NotificationLevel::Error,
                        text: (if task { "歌单导入任务失败: "@ } else { "歌单导入失败: "@ }) + e,
                    },
                },
            ],
        ),
        AppActionView::ShowArtistDetails { singer } => (
            AppStateView { details_open: true, ..s },
            seq![EffectView::LoadArtist { name: trim_seq(singer) }],
        ),
        AppActionView::ShowAlbumDetails => (AppStateView { details_open: true, ..s }, seq![EffectView::LoadAlbum]),
        _ => (s, Seq::empty()),
    }
}

fn many(v: Vec<AppEffect>) -> (r: Vec<AppEffect>)
    ensures
        r@ == v@,
{
    v
}

fn str_of(t: &str) -> (s: String)
    ensures
        s@ == t@,
{
    string_of(t)
}

fn concat3(a: &str, b: &str, c: &str) -> (s: String)
    ensures
        s@ == a@ + b@ + c@,
{
    let mut s = string_of(a);
    push_str(&mut s, b);
    push_str(&mut s, c);
    s
}

fn remove_url(list: &Vec<String>, url: &String) -> (out: Vec<String>)
    ensures
        out@.map_values(|u: String| u@) == without(list@.map_values(|u: String| u@), url@),
{
    let ghost lv = list@.map_values(|u: String| u@);
    let mut out: Vec<String> = Vec::new();
    let mut i: usize = 0;
    assert(lv.take(0) =~= Seq::<Seq<char>>::empty());
    assert(out@.map_values(|u: String| u@) =~= Seq::<Seq<char>>::empty());
    while i < list.len()
        invariant
            i <= list@.len(),
            lv == list@.map_values(|u: String| u@),
            out@.map_values(|u: String| u@) == without(lv.take(i as int), url@),
        decreases list@.len() - i,
    {
        assert(lv.take(i + 1).drop_last() =~= lv.take(i as int));
        assert(lv.take(i + 1).last() == list@[i as int]@);
        if !str_eq(list[i].as_str(), url.as_str()) {
            let ghost before = out@.map_values(|u: String| u@);
            out.push(list[i].clone());
            assert(out@.map_values(|u: String| u@) =~= before.push(list@[i as int]@));
        }
        i = i + 1;
    }
    assert(lv.take(i as int) =~= lv);
    out
}

fn health_texts(results: &Vec<HealthResult>) -> (r: (String, String))
    ensures
        r.0@ == health_status(health_view(results@)),
        r.1@ == health_summary(health_view(results@)),
{
    let ghost hv = health_view(results@);
    let mut healthy: u64 = 0;
    let mut failures: Vec<Vec<char>> = Vec::new();
    let mut i: usize = 0;
    assert(hv.take(0) =~= Seq::<(Seq<char>, bool, Seq<char>)>::empty());
    assert(nested_view(failures@) =~= Seq::<Seq<char>>::empty());
    while i < results.len()
        invariant
            i <= results@.len(),
            hv == health_view(results@),
            healthy == healthy_count(hv.take(i as int)),
            healthy <= i,
            nested_view(failures@) == health_failures(hv.take(i as int)),
        decreases results@.len() - i,
    {
        assert(hv.take(i + 1).drop_last() =~= hv.take(i as int));
        assert(hv.take(i + 1).last() == hv[i as int]);
        let r = &results[i];
        if r.ok {
            healthy = healthy + 1;
        } else {
            let text = concat3(r.name.as_str(), ": ", r.detail.as_str());
            let line = crate::text::chars_of(text.as_str());
            let ghost before = nested_view(failures@);
            failures.push(line);
            assert(nested_view(failures@) =~= before.push(hv[i as int].0 + ": "@ + hv[i as int].2));
        }
        i = i + 1;
    }
    assert(hv.take(i as int) =~= hv);
    let mut summary = string_of("音源检测完成：");
    push_decimal(&mut summary, healthy);
    push_str(&mut summary, "/");
    push_decimal(&mut summary, results.len() as u64);
    push_str(&mut summary, " 可用");
    let mut status = summary.clone();
    if failures.len() > 0 {
        push_str(&mut status, "；失败：");
        let joined = join_chars(&failures, "；");
        push_str(&mut status, joined.as_str());
    }
    (status, summary)
}

fn scan_notices(errors: Vec<String>) -> (r: Vec<AppEffect>)
    ensures
        effects_view(r@) == seq![
            EffectView::StartWatcher,
            EffectView::SettingsStatus { text: "扫描错误: "@ + join_spec(errors@.map_values(|e: String| e@), "; "@) },
        ] + error_notices(errors@.map_values(|e: String| e@)),
{
    let ghost ev = errors@.map_values(|e: String| e@);
    let mut parts: Vec<Vec<char>> = Vec::new();
    let mut k: usize = 0;
    while k < errors.len()
        invariant
            k <= errors@.len(),
            ev == errors@.map_values(|e: String| e@),
            nested_view(parts@) == ev.take(k as int),
        decreases errors@.len() - k,
    {
        let ghost before = nested_view(parts@);
        parts.push(crate::text::chars_of(errors[k].as_str()));
        assert(nested_view(parts@) =~= before.push(ev[k as int]));
        assert(ev.take(k + 1) =~= ev.take(k as int).push(ev[k as int]));
        k = k + 1;
    }
    assert(ev.take(k as int) =~= ev);
    let mut status = string_of("扫描错误: ");
    let joined = join_chars(&parts, "; ");
    push_str(&mut status, joined.as_str());
    let mut out: Vec<AppEffect> = Vec::new();
    out.push(AppEffect::StartWatcher);
    out.push(AppEffect::SettingsStatus { text: status });
    let ghost head = effects_view(out@);
    let mut i: usize = 0;
    while i < errors.len()
        invariant
            i <= errors@.len(),
            ev == errors@.map_values(|e: String| e@),
            head.len() == 2,
            effects_view(out@) == head + error_notices(ev.take(i as int)),
        decreases errors@.len() - i,
    {
        let ghost before = effects_view(out@);
        out.push(AppEffect::Notify { level: NotificationLevel::Error, text: errors[i].clone() });
        assert(effects_view(out@) =~= before.push(EffectView::Notify { level: NotificationLevel::Error, text: ev[i as int] }));
        assert(error_notices(ev.take(i + 1)) =~= error_notices(ev.take(i as int)).push(
            EffectView::Notify { level: NotificationLevel::Error, text: ev[i as int] },
        ));
        i = i + 1;
    }
    assert(ev.take(i as int) =~= ev);
    out
}

/// The script source, health check and local scan actions.
#[verifier::rlimit(60)]
fn apply_sources(state: &mut AppState, action: AppAction) -> (effects: Vec<AppEffect>)
    requires
        old(state).js_generation < u64::MAX,
        old(state).scan_generation < u64::MAX,
        action is ImportSource || action is SourceImported || action is JsConfigSaved || action is SourceImportFailed
            || action is RemoveSource || action is CheckSourceHealth || action is SourceHealthChecked
            || action is ScanLocalMusic || action is ScanDone,
    ensures
        (final(state)@, effects_view(effects@)) == more_action_spec(old(state)@, action@),
{
    match action {
        AppAction::ImportSource { url } => {
            state.js_generation = state.js_generation + 1;
            one(AppEffect::ImportJs { url, generation: state.js_generation })
        },
        AppAction::SourceImported { url, generation } => {
            if generation != state.js_generation {
                return none();
            }
            let rest = remove_url(&state.js_sources, &url);
            let mut list: Vec<String> = Vec::new();
            list.push(url.clone());
            let ghost first = list@.map_values(|u: String| u@);
            assert(first =~= seq![url@]);
            let mut i: usize = 0;
            let ghost rv = rest@.map_values(|u: String| u@);
            while i < rest.len()
                invariant
                    i <= rest@.len(),
                    rv == rest@.map_values(|u: String| u@),
                    list@.map_values(|u: String| u@) == seq![url@] + rv.take(i as int),
                decreases rest@.len() - i,
            {
                let ghost before = list@.map_values(|u: String| u@);
                list.push(rest[i].clone());
                assert(list@.map_values(|u: String| u@) =~= before.push(rv[i as int]));
                assert(rv.take(i + 1) =~= rv.take(i as int).push(rv[i as int]));
                i = i + 1;
            }
            assert(rv.take(i as int) =~= rv);
            state.js_sources = list;
            let mut v = Vec::new();
            v.push(AppEffect::SelectFirstSource);
            v.push(AppEffect::SettingsStatus { text: string_of("✓ 音源已加载并启用") });
            v.push(AppEffect::SaveConfig);
            assert(effects_view(v@) =~= more_action_spec(old(state)@, action@).1);
            v
        },
        AppAction::JsConfigSaved { error } => match error {
            Some(e) => {
                let mut status = string_of("✗ 音源已启用，但保存配置失败: ");
                push_str(&mut status, e.as_str());
                let mut note = string_of("保存 JS 音源配置失败: ");
                push_str(&mut note, e.as_str());
                let mut v = Vec::new();
                v.push(AppEffect::SettingsStatus { text: status });
                v.push(AppEffect::Notify { level: NotificationLevel::Error, text: note });
                assert(effects_view(v@) =~= more_action_spec(old(state)@, action@).1);
                v
            },
            None => {
                state.js_generation = state.js_generation + 1;
                let mut v = Vec::new();
                v.push(AppEffect::LoadJsSources { generation: state.js_generation });
                v.push(AppEffect::Notify { level: NotificationLevel::Success, text: string_of("JS 音源配置已更新，正在加载全部脚本") });
                assert(effects_view(v@) =~= more_action_spec(old(state)@, action@).1);
                v
            },
        },
        AppAction::SourceImportFailed { error, generation } => {
            if generation != state.js_generation {
                return none();
            }
            let mut status = string_of("✗ 音源加载失败: ");
            push_str(&mut status, error.as_str());
            let mut note = string_of("JS 音源导入失败: ");
            push_str(&mut note, error.as_str());
            let mut v = Vec::new();
            v.push(AppEffect::SettingsStatus { text: status });
            v.push(AppEffect::Notify { level: NotificationLevel::Error, text: note });
            assert(effects_view(v@) =~= more_action_spec(old(state)@, action@).1);
            v
        },
        AppAction::RemoveSource { url } => {
            state.js_generation = state.js_generation + 1;
            state.js_sources = remove_url(&state.js_sources, &url);
            let mut v = Vec::new();
            v.push(AppEffect::SaveConfig);
            v.push(AppEffect::LoadJsSources { generation: state.js_generation });
            v.push(AppEffect::Notify { level: NotificationLevel::Success, text: string_of("已移除音源") });
            assert(effects_view(v@) =~= more_action_spec(old(state)@, action@).1);
            v
        },
        AppAction::CheckSourceHealth => {
            if state.health_checking {
                return none();
            }
            state.health_checking = true;
            one(AppEffect::RunHealthCheck)
        },
        AppAction::SourceHealthChecked { results } => {
            state.health_checking = false;
            let (status, summary) = health_texts(&results);
            let mut v = Vec::new();
            v.push(AppEffect::StoreHealth);
            v.push(AppEffect::SettingsStatus { text: status });
            v.push(AppEffect::Notify { level: NotificationLevel::Info, text: summary });
            assert(effects_view(v@) =~= more_action_spec(old(state)@, action@).1);
            v
        },
        AppAction::ScanLocalMusic { force } => {
            state.scan_generation = state.scan_generation + 1;
            one(AppEffect::StartScan { generation: state.scan_generation, force })
        },
        AppAction::ScanDone { generation, errors, count } => {
            if generation != state.scan_generation {
                return none();
            }
            if errors.len() == 0 {
                let mut m = string_of("本地音乐扫描完成，共 ");
                push_decimal(&mut m, count);
                push_str(&mut m, " 首");
                let mut v = Vec::new();
                v.push(AppEffect::StartWatcher);
                v.push(AppEffect::SettingsStatus { text: m.clone() });
                v.push(AppEffect::Notify { level: NotificationLevel::Success, text: m });
                assert(effects_view(v@) =~= more_action_spec(old(state)@, action@).1);
                v
            } else {
                scan_notices(errors)
            }
        },
        _ => none(),
    }
}

#[verifier::rlimit(100)]
fn apply_more(state: &mut AppState, action: AppAction) -> (effects: Vec<AppEffect>)
    requires
        old(state).play_request < u64::MAX,
        old(state).js_generation < u64::MAX,
        old(state).scan_generation < u64::MAX,
    ensures
        (final(state)@, effects_view(effects@)) == more_action_spec(old(state)@, action@),
{
    match action {
        AppAction::PlaySongAfterFailure { index } => {
            state.play_request = state.play_request + 1;
            one(AppEffect::StartSong { index, request_id: state.play_request, after_failure: true })
        },
        AppAction::PlayFromQueue { index } => {
            state.play_request = state.play_request + 1;
            one(AppEffect::StartQueueEntry { index, request_id: state.play_request, after_failure: false })
        },
        AppAction::PlayFromQueueAfterFailure { index } => {
            state.play_request = state.play_request + 1;
            one(AppEffect::StartQueueEntry { index, request_id: state.play_request, after_failure: true })
        },
        AppAction::AddToQueue { was_empty, position, inserted, name, singer, current } => {
            let has_current = current.is_some();
            match enqueue_outcome(was_empty, has_current, position, inserted) {
                EnqueueOutcome::StartPlaying => {
                    let (ci, cn, cs) = current.unwrap();
                    state.play_request = state.play_request + 1;
                    let mut text = string_of("开始播放: ");
                    push_str(&mut text, cn.as_str());
                    push_str(&mut text, " - ");
                    push_str(&mut text, cs.as_str());
                    let mut v = Vec::new();
                    v.push(AppEffect::StartQueueEntry { index: ci, request_id: state.play_request, after_failure: false });
                    v.push(AppEffect::Notify { level: NotificationLevel::Success, text });
                    assert(effects_view(v@) =~= more_action_spec(old(state)@, action@).1);
                    v
                },
                EnqueueOutcome::PlaysNext => {
                    let text = concat3("下一首播放: ", name.as_str(), " - ");
                    let mut text = text;
                    push_str(&mut text, singer.as_str());
                    one(AppEffect::Notify { level: NotificationLevel::Success, text })
                },
                EnqueueOutcome::Queued => {
                    let mut text = concat3("已加入队列: ", name.as_str(), " - ");
                    push_str(&mut text, singer.as_str());
                    one(AppEffect::Notify { level: NotificationLevel::Success, text })
                },
            }
        },
        AppAction::RestorePlayback { index, count, position_ms, start, paused } => {
            if index >= count {
                return none();
            }
            let mut v = Vec::new();
            v.push(AppEffect::SetQueue { index });
            v.push(AppEffect::ResetSourceAttempts);
            if start {
                state.play_request = state.play_request + 1;
                v.push(AppEffect::RestoreSong { index, request_id: state.play_request, position_ms, paused });
            } else {
                v.push(AppEffect::StopPlayer);
                v.push(AppEffect::SetCurrent { index });
            }
            assert(effects_view(v@) =~= more_action_spec(old(state)@, action@).1);
            v
        },
        AppAction::RemoveHistory => one(AppEffect::RemoveHistoryStore),
        AppAction::HistoryRemoved { removed, name } => {
            if removed {
                let mut text = string_of("已删除历史记录: ");
                push_str(&mut text, name.as_str());
                one(AppEffect::Notify { level: NotificationLevel::Success, text })
            } else {
                none()
            }
        },
        AppAction::ResolveBiliParts { index } => one(AppEffect::ResolveParts { index }),
        AppAction::BiliPartsFailed { reason, current } => {
            if !current {
                return none();
            }
            let text = match reason {
                PartsFailure::NoParts => string_of("未找到可播放的分 P"),
                PartsFailure::TimedOut => string_of("分 P 解析超时"),
                PartsFailure::Failed(e) => {
                    let mut t = string_of("分 P 解析失败: ");
                    push_str(&mut t, e.as_str());
                    t
                },
            };
            one(AppEffect::Notify { level: NotificationLevel::Warn, text })
        },
        AppAction::ImportSource { .. } | AppAction::SourceImported { .. } | AppAction::JsConfigSaved { .. }
        | AppAction::SourceImportFailed { .. } | AppAction::RemoveSource { .. } | AppAction::CheckSourceHealth
        | AppAction::SourceHealthChecked { .. } | AppAction::ScanLocalMusic { .. } | AppAction::ScanDone { .. } => {
            apply_sources(state, action)
        },
        AppAction::ImportExternalPlaylist => one(AppEffect::ImportPlaylist),
        AppAction::PlaylistImported { report } => {
            let text = match report {
                ImportReport::Imported { name, imported, skipped } => {
                    let mut t = string_of("已导入歌单 ");
                    push_str(&mut t, name.as_str());
                    push_str(&mut t, "：");
                    push_decimal(&mut t, imported);
                    push_str(&mut t, " 首，跳过 ");
                    push_decimal(&mut t, skipped);
                    push_str(&mut t, " 首");
                    return one(AppEffect::Notify { level: NotificationLevel::Success, text: t });
                },
                ImportReport::Failed(e) => {
                    let mut t = string_of("歌单导入失败: ");
                    push_str(&mut t, e.as_str());
                    t
                },
                ImportReport::TaskFailed(e) => {
                    let mut t = string_of("歌单导入任务失败: ");
                    push_str(&mut t, e.as_str());
                    t
                },
            };
            one(AppEffect::Notify { level: NotificationLevel::Error, text })
        },
        AppAction::ShowArtistDetails { singer } => {
            state.details_open = true;
            one(AppEffect::LoadArtist { name: trim(singer.as_str()) })
        },
        AppAction::ShowAlbumDetails => {
            state.details_open = true;
            one(AppEffect::LoadAlbum)
        },
        _ => none(),
    }
}

fn set_overlay_flag(state: &mut AppState, o: Overlay, open: bool)
    ensures
        final(state)@ == set_overlay(old(state)@, o, open),
{
    match o {
        Overlay::QrLogin => state.qr_login_open = open,
        Overlay::SongMenu => state.song_menu_open = open,
        Overlay::Help => state.help_open = open,
        Overlay::Downloads => state.downloads_open = open,
        Overlay::Details => state.details_open = open,
    }
}

/// One step of the main loop: a key is routed, an action carried out.
pub fn app_step(state: &mut AppState, event: AppEvent) -> (effects: Vec<AppEffect>)
    requires
        old(state).play_request < u64::MAX,
        old(state).js_generation < u64::MAX,
        old(state).scan_generation < u64::MAX,
        event matches AppEvent::Action(AppAction::SearchMore { .. }) ==> old(state).search.page < u32::MAX,
    ensures
        (final(state)@, effects_view(effects@)) == app_step_spec(old(state)@, event@),
{
    match event {
        AppEvent::Key { key, text_input, page_owns_key, tab_key, global, player } => key_step(
            state,
            key,
            text_input,
            page_owns_key,
            tab_key,
            global,
            player,
        ),
        AppEvent::Action(a) => apply_action(state, a),
    }
}

/// An open layer takes every key before the page: while any overlay,
/// dialog or diagnostics list is open, a key asks for at most one effect,
/// never reaches the page, switches no tab and does not quit.
pub proof fn lemma_overlays_take_keys(
    s: AppStateView,
    key: KeyEvent,
    text_input: bool,
    page_owns_key: bool,
    tab_key: Option<NavTab>,
    global: Option<GlobalAction>,
    player: PlayerState,
)
    requires
        s.qr_login_open || s.delete_pending || s.diagnostics is Some || s.song_menu_open || s.help_open
            || s.downloads_open || s.details_open,
    ensures
        ({
            let (t, fx) = key_step_spec(s, key, text_input, page_owns_key, tab_key, global, player);
            &&& fx.len() <= 1
            &&& fx.len() == 1 ==> fx[0] != EffectView::RouteToPage && fx[0] != EffectView::Quit
            &&& t.tab == s.tab
            &&& t.quit == s.quit
        }),
{
}

} // verus!
