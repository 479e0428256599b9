//! The message vocabulary of the session: every internal message a tick
//! can reduce, and the typed identifiers of the addressable surfaces.
//! A reduction takes one of these and the session state; unknown or
//! stale messages degrade to no-ops rather than failures.
use vstd::prelude::*;
use crate::config::ColorTermusic;
use crate::lyrics::SongTag;

verus! {

#[derive(Clone, Debug, PartialEq)]
pub enum Msg {
    ColorEditor(CEMsg),
    DataBase(DBMsg),
    DeleteConfirmCloseCancel,
    DeleteConfirmCloseOk,
    DeleteConfirmShow,
    ErrorPopupClose,
    GeneralSearch(GSMsg),
    HelpPopupShow,
    HelpPopupClose,
    KeyEditor(KEMsg),
    LayoutTreeView,
    LayoutDataBase,
    Library(LIMsg),
    LyricCycle,
    LyricAdjustDelay(i64),
    PlayerToggleGapless,
    PlayerTogglePause,
    PlayerVolumeUp,
    PlayerVolumeDown,
    PlayerSpeedUp,
    PlayerSpeedDown,
    PlayerSeek(isize),
    Playlist(PLMsg),
    QuitPopupCloseCancel,
    QuitPopupCloseOk,
    QuitPopupShow,
    TagEditor(TEMsg),
    UpdatePhoto,
    YoutubeSearch(YSMsg),
    Noop,
}

#[derive(Clone, Debug, PartialEq)]
pub enum LIMsg {
    TreeExtendDir(String),
    TreeGoToUpperDir,
    TreeBlur,
    Yank,
    Paste,
}

#[derive(Clone, Debug, PartialEq)]
pub enum DBMsg {
    AddAllToPlaylist,
    AddPlaylist(usize),
    CriteriaBlurDown,
    CriteriaBlurUp,
    SearchResult(usize),
    SearchResultBlurDown,
    SearchResultBlurUp,
    SearchTrack(usize),
    SearchTracksBlurDown,
    SearchTracksBlurUp,
}

#[derive(Clone, Debug, PartialEq)]
pub enum PLMsg {
    AddFront,
    NextSong,
    PrevSong,
    TableBlur,
    Add(String),
    Delete(usize),
    DeleteAll,
    LoopModeCycle,
    PlaySelected(usize),
    Shuffle,
    SwapDown(usize),
    SwapUp(usize),
}

#[derive(Clone, Debug, PartialEq)]
pub enum GSMsg {
    PopupShowDatabase,
    PopupShowLibrary,
    PopupShowPlaylist,
    PopupCloseCancel,
    InputBlur,
    PopupUpdateDatabase(String),
    PopupUpdateLibrary(String),
    PopupUpdatePlaylist(String),
    TableBlur,
    PopupCloseDatabaseAddPlaylist,
    PopupCloseLibraryAddPlaylist,
    PopupCloseOkLibraryLocate,
    PopupClosePlaylistPlaySelected,
    PopupCloseOkPlaylistLocate,
}

#[derive(Clone, Debug, PartialEq)]
pub enum YSMsg {
    InputPopupShow,
    InputPopupCloseCancel,
    InputPopupCloseOk(String),
    TablePopupNext,
    TablePopupPrevious,
    TablePopupCloseCancel,
    TablePopupCloseOk(usize),
}

#[derive(Clone, Debug, PartialEq)]
pub enum TEMsg {
    TagEditorRun(String),
    TagEditorClose(Option<String>),
    TECounterDeleteBlurDown,
    TECounterDeleteBlurUp,
    TECounterDeleteOk,
    TEDownload(usize),
    TEEmbed(usize),
    TEHelpPopupShow,
    TEHelpPopupClose,
    TEInputArtistBlurDown,
    TEInputArtistBlurUp,
    TEInputTitleBlurDown,
    TEInputTitleBlurUp,
    TERadioTagBlurDown,
    TERadioTagBlurUp,
    TERadioTagOk,
    TESearch,
    TESelectLyricBlurDown,
    TESelectLyricBlurUp,
    TESelectLyricOk(usize),
    TETableLyricOptionsBlurDown,
    TETableLyricOptionsBlurUp,
    TETextareaLyricBlurDown,
    TETextareaLyricBlurUp,
}

#[derive(Clone, Debug, PartialEq)]
pub enum CEMsg {
    ColorChanged(IdColorEditor, ColorTermusic),
    SymbolChanged(IdColorEditor, String),
    ColorEditorShow,
    ColorEditorCloseCancel,
    ColorEditorCloseOk,
    HelpPopupShow,
    HelpPopupClose,
    ColorEditorOkBlurDown,
    ColorEditorOkBlurUp,
    LibraryForegroundBlurDown,
    LibraryForegroundBlurUp,
    LibraryBackgroundBlurDown,
    LibraryBackgroundBlurUp,
    LibraryBorderBlurDown,
    LibraryBorderBlurUp,
    LibraryHighlightBlurDown,
    LibraryHighlightBlurUp,
    LibraryHighlightSymbolBlurDown,
    LibraryHighlightSymbolBlurUp,
    PlaylistForegroundBlurDown,
    PlaylistForegroundBlurUp,
    PlaylistBackgroundBlurDown,
    PlaylistBackgroundBlurUp,
    PlaylistBorderBlurDown,
    PlaylistBorderBlurUp,
    PlaylistHighlightBlurDown,
    PlaylistHighlightBlurUp,
    PlaylistHighlightSymbolBlurDown,
    PlaylistHighlightSymbolBlurUp,
    ProgressForegroundBlurDown,
    ProgressForegroundBlurUp,
    ProgressBackgroundBlurDown,
    ProgressBackgroundBlurUp,
    ProgressBorderBlurDown,
    ProgressBorderBlurUp,
    LyricForegroundBlurDown,
    LyricForegroundBlurUp,
    LyricBackgroundBlurDown,
    LyricBackgroundBlurUp,
    LyricBorderBlurDown,
    LyricBorderBlurUp,
    ThemeSelectBlurDown,
    ThemeSelectBlurUp,
    ThemeSelectLoad(usize),
}

#[derive(Clone, Debug, PartialEq)]
pub enum KEMsg {
    DatabaseAddAllBlurDown,
    DatabaseAddAllBlurUp,
    DatabaseAddAllInputBlurDown,
    DatabaseAddAllInputBlurUp,
    GlobalColorEditorBlurDown,
    GlobalColorEditorBlurUp,
    GlobalColorEditorInputBlurDown,
    GlobalColorEditorInputBlurUp,
    GlobalDownBlurDown,
    GlobalDownBlurUp,
    GlobalDownInputBlurDown,
    GlobalDownInputBlurUp,
    GlobalGotoBottomBlurDown,
    GlobalGotoBottomBlurUp,
    GlobalGotoBottomInputBlurDown,
    GlobalGotoBottomInputBlurUp,
    GlobalGotoTopBlurDown,
    GlobalGotoTopBlurUp,
    GlobalGotoTopInputBlurDown,
    GlobalGotoTopInputBlurUp,
    GlobalHelpBlurDown,
    GlobalHelpBlurUp,
    GlobalHelpInputBlurDown,
    GlobalHelpInputBlurUp,
    GlobalKeyEditorBlurDown,
    GlobalKeyEditorBlurUp,
    GlobalKeyEditorInputBlurDown,
    GlobalKeyEditorInputBlurUp,
    GlobalLayoutTreeviewBlurDown,
    GlobalLayoutTreeviewBlurUp,
    GlobalLayoutTreeviewInputBlurDown,
    GlobalLayoutTreeviewInputBlurUp,
    GlobalLayoutDatabaseBlurDown,
    GlobalLayoutDatabaseBlurUp,
    GlobalLayoutDatabaseInputBlurDown,
    GlobalLayoutDatabaseInputBlurUp,
    GlobalLeftBlurDown,
    GlobalLeftBlurUp,
    GlobalLeftInputBlurDown,
    GlobalLeftInputBlurUp,
    GlobalLyricAdjustForwardBlurDown,
    GlobalLyricAdjustForwardBlurUp,
    GlobalLyricAdjustBackwardBlurDown,
    GlobalLyricAdjustBackwardBlurUp,
    GlobalLyricAdjustForwardInputBlurDown,
    GlobalLyricAdjustForwardInputBlurUp,
    GlobalLyricAdjustBackwardInputBlurDown,
    GlobalLyricAdjustBackwardInputBlurUp,
    GlobalLyricCyleBlurDown,
    GlobalLyricCyleBlurUp,
    GlobalLyricCyleInputBlurDown,
    GlobalLyricCyleInputBlurUp,
    GlobalPlayerNextBlurDown,
    GlobalPlayerNextBlurUp,
    GlobalPlayerNextInputBlurDown,
    GlobalPlayerNextInputBlurUp,
    GlobalPlayerPreviousBlurDown,
    GlobalPlayerPreviousBlurUp,
    GlobalPlayerPreviousInputBlurDown,
    GlobalPlayerPreviousInputBlurUp,
    GlobalPlayerSeekForwardBlurDown,
    GlobalPlayerSeekForwardBlurUp,
    GlobalPlayerSeekForwardInputBlurDown,
    GlobalPlayerSeekForwardInputBlurUp,
    GlobalPlayerSeekBackwardBlurDown,
    GlobalPlayerSeekBackwardBlurUp,
    GlobalPlayerSeekBackwardInputBlurDown,
    GlobalPlayerSeekBackwardInputBlurUp,
    GlobalPlayerSpeedUpBlurDown,
    GlobalPlayerSpeedUpBlurUp,
    GlobalPlayerSpeedUpInputBlurDown,
    GlobalPlayerSpeedUpInputBlurUp,
    GlobalPlayerSpeedDownBlurDown,
    GlobalPlayerSpeedDownBlurUp,
    GlobalPlayerSpeedDownInputBlurDown,
    GlobalPlayerSpeedDownInputBlurUp,
    GlobalPlayerToggleGaplessBlurDown,
    GlobalPlayerToggleGaplessBlurUp,
    GlobalPlayerToggleGaplessInputBlurDown,
    GlobalPlayerToggleGaplessInputBlurUp,
    GlobalPlayerTogglePauseBlurDown,
    GlobalPlayerTogglePauseBlurUp,
    GlobalPlayerTogglePauseInputBlurDown,
    GlobalPlayerTogglePauseInputBlurUp,
    GlobalQuitBlurDown,
    GlobalQuitBlurUp,
    GlobalQuitInputBlurDown,
    GlobalQuitInputBlurUp,
    GlobalRightBlurDown,
    GlobalRightBlurUp,
    GlobalRightInputBlurDown,
    GlobalRightInputBlurUp,
    GlobalUpBlurDown,
    GlobalUpBlurUp,
    GlobalUpInputBlurDown,
    GlobalUpInputBlurUp,
    GlobalVolumeDownBlurDown,
    GlobalVolumeDownBlurUp,
    GlobalVolumeDownInputBlurDown,
    GlobalVolumeDownInputBlurUp,
    GlobalVolumeUpBlurDown,
    GlobalVolumeUpBlurUp,
    GlobalVolumeUpInputBlurDown,
    GlobalVolumeUpInputBlurUp,
    HelpPopupShow,
    HelpPopupClose,
    KeyChanged(IdKeyEditor),
    KeyEditorShow,
    KeyEditorCloseCancel,
    KeyEditorCloseOk,
    LibraryDeleteBlurDown,
    LibraryDeleteBlurUp,
    LibraryDeleteInputBlurDown,
    LibraryDeleteInputBlurUp,
    LibraryLoadDirBlurDown,
    LibraryLoadDirBlurUp,
    LibraryLoadDirInputBlurDown,
    LibraryLoadDirInputBlurUp,
    LibraryPasteBlurDown,
    LibraryPasteBlurUp,
    LibraryPasteInputBlurDown,
    LibraryPasteInputBlurUp,
    LibrarySearchBlurDown,
    LibrarySearchBlurUp,
    LibrarySearchInputBlurDown,
    LibrarySearchInputBlurUp,
    LibrarySearchYoutubeBlurDown,
    LibrarySearchYoutubeBlurUp,
    LibrarySearchYoutubeInputBlurDown,
    LibrarySearchYoutubeInputBlurUp,
    LibraryTagEditorBlurDown,
    LibraryTagEditorBlurUp,
    LibraryTagEditorInputBlurDown,
    LibraryTagEditorInputBlurUp,
    LibraryYankBlurDown,
    LibraryYankBlurUp,
    LibraryYankInputBlurDown,
    LibraryYankInputBlurUp,
    PlaylistDeleteBlurDown,
    PlaylistDeleteBlurUp,
    PlaylistDeleteInputBlurDown,
    PlaylistDeleteInputBlurUp,
    PlaylistDeleteAllBlurDown,
    PlaylistDeleteAllBlurUp,
    PlaylistDeleteAllInputBlurDown,
    PlaylistDeleteAllInputBlurUp,
    PlaylistShuffleBlurDown,
    PlaylistShuffleBlurUp,
    PlaylistShuffleInputBlurDown,
    PlaylistShuffleInputBlurUp,
    PlaylistModeCycleBlurDown,
    PlaylistModeCycleBlurUp,
    PlaylistModeCycleInputBlurDown,
    PlaylistModeCycleInputBlurUp,
    PlaylistPlaySelectedBlurDown,
    PlaylistPlaySelectedBlurUp,
    PlaylistPlaySelectedInputBlurDown,
    PlaylistPlaySelectedInputBlurUp,
    PlaylistAddFrontBlurDown,
    PlaylistAddFrontBlurUp,
    PlaylistAddFrontInputBlurDown,
    PlaylistAddFrontInputBlurUp,
    PlaylistSearchBlurDown,
    PlaylistSearchBlurUp,
    PlaylistSearchInputBlurDown,
    PlaylistSearchInputBlurUp,
    PlaylistSwapDownBlurDown,
    PlaylistSwapDownBlurUp,
    PlaylistSwapDownInputBlurDown,
    PlaylistSwapDownInputBlurUp,
    PlaylistSwapUpBlurDown,
    PlaylistSwapUpBlurUp,
    PlaylistSwapUpInputBlurDown,
    PlaylistSwapUpInputBlurUp,
    RadioOkBlurUp,
    RadioOkBlurDown,
}

/// The addressable surfaces the coordinator can update.
#[derive(Clone, Debug, PartialEq, Eq, Hash)]
pub enum Id {
    ColorEditor(IdColorEditor),
    DBListCriteria,
    DBListSearchResult,
    DBListSearchTracks,
    DeleteConfirmRadioPopup,
    DeleteConfirmInputPopup,
    ErrorPopup,
    GeneralSearchInput,
    GeneralSearchTable,
    GlobalListener,
    HelpPopup,
    KeyEditor(IdKeyEditor),
    Label,
    Library,
    Lyric,
    MessagePopup,
    Playlist,
    Progress,
    QuitPopup,
    TagEditor(IdTagEditor),
    YoutubeSearchInputPopup,
    YoutubeSearchTablePopup,
}

#[derive(Clone, Debug, PartialEq, Eq, Hash)]
pub enum IdTagEditor {
    CounterDelete,
    HelpPopup,
    LabelHint,
    InputArtist,
    InputTitle,
    RadioTag,
    SelectLyric,
    TableLyricOptions,
    TextareaLyric,
}

#[derive(Clone, Debug, PartialEq, Eq, Hash)]
pub enum IdColorEditor {
    RadioOk,
    LabelHint,
    ThemeSelect,
    HelpPopup,
    LibraryLabel,
    LibraryForeground,
    LibraryBackground,
    LibraryBorder,
    LibraryHighlight,
    LibraryHighlightSymbol,
    PlaylistLabel,
    PlaylistForeground,
    PlaylistBackground,
    PlaylistBorder,
    PlaylistHighlight,
    PlaylistHighlightSymbol,
    ProgressLabel,
    ProgressForeground,
    ProgressBackground,
    ProgressBorder,
    LyricLabel,
    LyricForeground,
    LyricBackground,
    LyricBorder,
}

#[derive(Clone, Debug, PartialEq, Eq, Hash)]
pub enum IdKeyEditor {
    DatabaseAddAll,
    DatabaseAddAllInput,
    GlobalColorEditor,
    GlobalColorEditorInput,
    GlobalDown,
    GlobalDownInput,
    GlobalGotoBottom,
    GlobalGotoBottomInput,
    GlobalGotoTop,
    GlobalGotoTopInput,
    GlobalHelp,
    GlobalHelpInput,
    GlobalKeyEditor,
    GlobalKeyEditorInput,
    GlobalLayoutTreeview,
    GlobalLayoutTreeviewInput,
    GlobalLayoutDatabase,
    GlobalLayoutDatabaseInput,
    GlobalLeft,
    GlobalLeftInput,
    GlobalLyricAdjustForward,
    GlobalLyricAdjustForwardInput,
    GlobalLyricAdjustBackward,
    GlobalLyricAdjustBackwardInput,
    GlobalLyricCycle,
    GlobalLyricCycleInput,
    GlobalPlayerToggleGapless,
    GlobalPlayerToggleGaplessInput,
    GlobalPlayerTogglePause,
    GlobalPlayerTogglePauseInput,
    GlobalPlayerNext,
    GlobalPlayerNextInput,
    GlobalPlayerPrevious,
    GlobalPlayerPreviousInput,
    GlobalPlayerSeekForward,
    GlobalPlayerSeekForwardInput,
    GlobalPlayerSeekBackward,
    GlobalPlayerSeekBackwardInput,
    GlobalPlayerSpeedUp,
    GlobalPlayerSpeedUpInput,
    GlobalPlayerSpeedDown,
    GlobalPlayerSpeedDownInput,
    GlobalQuit,
    GlobalQuitInput,
    GlobalRight,
    GlobalRightInput,
    GlobalUp,
    GlobalUpInput,
    GlobalVolumeDown,
    GlobalVolumeDownInput,
    GlobalVolumeUp,
    GlobalVolumeUpInput,
    HelpPopup,
    LabelHint,
    LibraryDelete,
    LibraryDeleteInput,
    LibraryLoadDir,
    LibraryLoadDirInput,
    LibraryPaste,
    LibraryPasteInput,
    LibrarySearch,
    LibrarySearchInput,
    LibrarySearchYoutube,
    LibrarySearchYoutubeInput,
    LibraryTagEditor,
    LibraryTagEditorInput,
    LibraryYank,
    LibraryYankInput,
    PlaylistDelete,
    PlaylistDeleteAll,
    PlaylistShuffle,
    PlaylistModeCycle,
    PlaylistPlaySelected,
    PlaylistAddFront,
    PlaylistSearch,
    PlaylistDeleteInput,
    PlaylistDeleteAllInput,
    PlaylistShuffleInput,
    PlaylistModeCycleInput,
    PlaylistPlaySelectedInput,
    PlaylistAddFrontInput,
    PlaylistSearchInput,
    PlaylistSwapDown,
    PlaylistSwapDownInput,
    PlaylistSwapUp,
    PlaylistSwapUpInput,
    RadioOk,
}

/// Status of a background download, as the status line shows it.
#[derive(Copy, Clone)]
pub enum StatusLine {
    Default,
    Success,
    Running,
    Error,
}

/// Outcome of a finished lyric search.
pub enum SearchLyricState {
    Finish(Vec<SongTag>),
}

} // verus!
