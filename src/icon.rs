//! Icon references for items, and the paths of the system icons.
use vstd::prelude::*;

verus! {

pub const ICON_ROOT: &'static str = "/System/Library/CoreServices/CoreTypes.bundle/Contents/Resources";
pub const ICON_AR_DOCUMENT: &'static str = "/System/Library/CoreServices/CoreTypes.bundle/Contents/Resources/ARDocument.icns";
pub const ICON_AR_OBJECT: &'static str = "/System/Library/CoreServices/CoreTypes.bundle/Contents/Resources/ARObject.icns";
pub const ICON_ACCOUNTS: &'static str = "/System/Library/CoreServices/CoreTypes.bundle/Contents/Resources/Accounts.icns";
pub const ICON_ACTIONS: &'static str = "/System/Library/CoreServices/CoreTypes.bundle/Contents/Resources/Actions.icns";
pub const ICON_AIRDROP: &'static str = "/System/Library/CoreServices/CoreTypes.bundle/Contents/Resources/AirDrop.icns";
pub const ICON_ALERT_CAUTION_BADGE: &'static str = "/System/Library/CoreServices/CoreTypes.bundle/Contents/Resources/AlertCautionBadgeIcon.icns";
pub const ICON_ALERT_NOTE: &'static str = "/System/Library/CoreServices/CoreTypes.bundle/Contents/Resources/AlertNoteIcon.icns";
pub const ICON_ALERT_STOP: &'static str = "/System/Library/CoreServices/CoreTypes.bundle/Contents/Resources/AlertStopIcon.icns";
pub const ICON_ALIAS_BADGE: &'static str = "/System/Library/CoreServices/CoreTypes.bundle/Contents/Resources/AliasBadgeIcon.icns";
pub const ICON_ALL_MY_FILES: &'static str = "/System/Library/CoreServices/CoreTypes.bundle/Contents/Resources/AllMyFiles.icns";
pub const ICON_APPLE_TRACE_FILE: &'static str = "/System/Library/CoreServices/CoreTypes.bundle/Contents/Resources/AppleTraceFile.icns";
pub const ICON_APPLICATIONS_FOLDER: &'static str = "/System/Library/CoreServices/CoreTypes.bundle/Contents/Resources/ApplicationsFolderIcon.icns";
pub const ICON_BACKWARD_ARROW: &'static str = "/System/Library/CoreServices/CoreTypes.bundle/Contents/Resources/BackwardArrowIcon.icns";
pub const ICON_BONJOUR: &'static str = "/System/Library/CoreServices/CoreTypes.bundle/Contents/Resources/Bonjour.icns";
pub const ICON_BOOKMARK: &'static str = "/System/Library/CoreServices/CoreTypes.bundle/Contents/Resources/BookmarkIcon.icns";
pub const ICON_BURNABLE_FOLDER: &'static str = "/System/Library/CoreServices/CoreTypes.bundle/Contents/Resources/BurnableFolderIcon.icns";
pub const ICON_BURNING: &'static str = "/System/Library/CoreServices/CoreTypes.bundle/Contents/Resources/BurningIcon.icns";
pub const ICON_CD_AUDIO_VOLUME: &'static str = "/System/Library/CoreServices/CoreTypes.bundle/Contents/Resources/CDAudioVolumeIcon.icns";
pub const ICON_CLIPPING_PICTURE: &'static str = "/System/Library/CoreServices/CoreTypes.bundle/Contents/Resources/ClippingPicture.icns";
pub const ICON_CLIPPING_SOUND: &'static str = "/System/Library/CoreServices/CoreTypes.bundle/Contents/Resources/ClippingSound.icns";
pub const ICON_CLIPPING_TEXT: &'static str = "/System/Library/CoreServices/CoreTypes.bundle/Contents/Resources/ClippingText.icns";
pub const ICON_CLIPPING_UNKNOWN: &'static str = "/System/Library/CoreServices/CoreTypes.bundle/Contents/Resources/ClippingUnknown.icns";
pub const ICON_CLOCK: &'static str = "/System/Library/CoreServices/CoreTypes.bundle/Contents/Resources/Clock.icns";
pub const ICON_COLOR_SYNC_PROFILE: &'static str = "/System/Library/CoreServices/CoreTypes.bundle/Contents/Resources/ColorSyncProfileIcon.icns";
pub const ICON_CONNECT_TO: &'static str = "/System/Library/CoreServices/CoreTypes.bundle/Contents/Resources/ConnectToIcon.icns";
pub const ICON_DESKTOP_FOLDER: &'static str = "/System/Library/CoreServices/CoreTypes.bundle/Contents/Resources/DesktopFolderIcon.icns";
pub const ICON_DEVELOPER_FOLDER: &'static str = "/System/Library/CoreServices/CoreTypes.bundle/Contents/Resources/DeveloperFolderIcon.icns";
pub const ICON_DOCUMENTS_FOLDER: &'static str = "/System/Library/CoreServices/CoreTypes.bundle/Contents/Resources/DocumentsFolderIcon.icns";
pub const ICON_DOWNLOADS_FOLDER: &'static str = "/System/Library/CoreServices/CoreTypes.bundle/Contents/Resources/DownloadsFolder.icns";
pub const ICON_DROP_FOLDER_BADGE: &'static str = "/System/Library/CoreServices/CoreTypes.bundle/Contents/Resources/DropFolderBadgeIcon.icns";
pub const ICON_EJECT_MEDIA: &'static str = "/System/Library/CoreServices/CoreTypes.bundle/Contents/Resources/EjectMediaIcon.icns";
pub const ICON_ERASING: &'static str = "/System/Library/CoreServices/CoreTypes.bundle/Contents/Resources/ErasingIcon.icns";
pub const ICON_EVERYONE: &'static str = "/System/Library/CoreServices/CoreTypes.bundle/Contents/Resources/Everyone.icns";
pub const ICON_EXECUTABLE_BINARY: &'static str = "/System/Library/CoreServices/CoreTypes.bundle/Contents/Resources/ExecutableBinaryIcon.icns";
pub const ICON_FAVORITE_ITEMS: &'static str = "/System/Library/CoreServices/CoreTypes.bundle/Contents/Resources/FavoriteItemsIcon.icns";
pub const ICON_FILE_VAULT: &'static str = "/System/Library/CoreServices/CoreTypes.bundle/Contents/Resources/FileVaultIcon.icns";
pub const ICON_FINDER: &'static str = "/System/Library/CoreServices/CoreTypes.bundle/Contents/Resources/FinderIcon.icns";
pub const ICON_FORWARD_ARROW: &'static str = "/System/Library/CoreServices/CoreTypes.bundle/Contents/Resources/ForwardArrowIcon.icns";
pub const ICON_FULL_TRASH: &'static str = "/System/Library/CoreServices/CoreTypes.bundle/Contents/Resources/FullTrashIcon.icns";
pub const ICON_GENERAL: &'static str = "/System/Library/CoreServices/CoreTypes.bundle/Contents/Resources/General.icns";
pub const ICON_GENERIC_AIR_DISK: &'static str = "/System/Library/CoreServices/CoreTypes.bundle/Contents/Resources/GenericAirDiskIcon.icns";
pub const ICON_GENERIC_APPLICATION: &'static str = "/System/Library/CoreServices/CoreTypes.bundle/Contents/Resources/GenericApplicationIcon.icns";
pub const ICON_GENERIC_DOCUMENT: &'static str = "/System/Library/CoreServices/CoreTypes.bundle/Contents/Resources/GenericDocumentIcon.icns";
pub const ICON_GENERIC_FILE_SERVER: &'static str = "/System/Library/CoreServices/CoreTypes.bundle/Contents/Resources/GenericFileServerIcon.icns";
pub const ICON_GENERIC_FOLDER: &'static str = "/System/Library/CoreServices/CoreTypes.bundle/Contents/Resources/GenericFolderIcon.icns";
pub const ICON_GENERIC_FONT: &'static str = "/System/Library/CoreServices/CoreTypes.bundle/Contents/Resources/GenericFontIcon.icns";
pub const ICON_GENERIC_NETWORK: &'static str = "/System/Library/CoreServices/CoreTypes.bundle/Contents/Resources/GenericNetworkIcon.icns";
pub const ICON_GENERIC_QUESTION_MARK: &'static str = "/System/Library/CoreServices/CoreTypes.bundle/Contents/Resources/GenericQuestionMarkIcon.icns";
pub const ICON_GENERIC_SHAREPOINT: &'static str = "/System/Library/CoreServices/CoreTypes.bundle/Contents/Resources/GenericSharepoint.icns";
pub const ICON_GENERIC_SPEAKER: &'static str = "/System/Library/CoreServices/CoreTypes.bundle/Contents/Resources/GenericSpeaker.icns";
pub const ICON_GENERIC_STATIONERY: &'static str = "/System/Library/CoreServices/CoreTypes.bundle/Contents/Resources/GenericStationeryIcon.icns";
pub const ICON_GENERIC_TIME_MACHINE_DISK: &'static str = "/System/Library/CoreServices/CoreTypes.bundle/Contents/Resources/GenericTimeMachineDiskIcon.icns";
pub const ICON_GENERIC_URL: &'static str = "/System/Library/CoreServices/CoreTypes.bundle/Contents/Resources/GenericURLIcon.icns";
pub const ICON_GENERIC_WINDOW: &'static str = "/System/Library/CoreServices/CoreTypes.bundle/Contents/Resources/GenericWindowIcon.icns";
pub const ICON_GRID: &'static str = "/System/Library/CoreServices/CoreTypes.bundle/Contents/Resources/GridIcon.icns";
pub const ICON_GROUP_FOLDER: &'static str = "/System/Library/CoreServices/CoreTypes.bundle/Contents/Resources/GroupFolder.icns";
pub const ICON_GROUP: &'static str = "/System/Library/CoreServices/CoreTypes.bundle/Contents/Resources/GroupIcon.icns";
pub const ICON_GUEST_USER: &'static str = "/System/Library/CoreServices/CoreTypes.bundle/Contents/Resources/GuestUserIcon.icns";
pub const ICON_HELP: &'static str = "/System/Library/CoreServices/CoreTypes.bundle/Contents/Resources/HelpIcon.icns";
pub const ICON_HOME_FOLDER: &'static str = "/System/Library/CoreServices/CoreTypes.bundle/Contents/Resources/HomeFolderIcon.icns";
pub const ICON_INTERNET_LOCATION: &'static str = "/System/Library/CoreServices/CoreTypes.bundle/Contents/Resources/InternetLocation.icns";
pub const ICON_KEXT: &'static str = "/System/Library/CoreServices/CoreTypes.bundle/Contents/Resources/KEXT.icns";
pub const ICON_KEEP_ARRANGED: &'static str = "/System/Library/CoreServices/CoreTypes.bundle/Contents/Resources/KeepArrangedIcon.icns";
pub const ICON_LIBRARY_FOLDER: &'static str = "/System/Library/CoreServices/CoreTypes.bundle/Contents/Resources/LibraryFolderIcon.icns";
pub const ICON_LOCKED_BADGE: &'static str = "/System/Library/CoreServices/CoreTypes.bundle/Contents/Resources/LockedBadgeIcon.icns";
pub const ICON_LOCKED: &'static str = "/System/Library/CoreServices/CoreTypes.bundle/Contents/Resources/LockedIcon.icns";
pub const ICON_MAGNIFYING_GLASS: &'static str = "/System/Library/CoreServices/CoreTypes.bundle/Contents/Resources/MagnifyingGlassIcon.icns";
pub const ICON_MOVIE_FOLDER: &'static str = "/System/Library/CoreServices/CoreTypes.bundle/Contents/Resources/MovieFolderIcon.icns";
pub const ICON_MULTIPLE_ITEMS: &'static str = "/System/Library/CoreServices/CoreTypes.bundle/Contents/Resources/MultipleItemsIcon.icns";
pub const ICON_MUSIC_FOLDER: &'static str = "/System/Library/CoreServices/CoreTypes.bundle/Contents/Resources/MusicFolderIcon.icns";
pub const ICON_NET_BOOT_VOLUME: &'static str = "/System/Library/CoreServices/CoreTypes.bundle/Contents/Resources/NetBootVolume.icns";
pub const ICON_NEW_FOLDER_BADGE: &'static str = "/System/Library/CoreServices/CoreTypes.bundle/Contents/Resources/NewFolderBadgeIcon.icns";
pub const ICON_NO_WRITE: &'static str = "/System/Library/CoreServices/CoreTypes.bundle/Contents/Resources/NoWriteIcon.icns";
pub const ICON_NOT_LOADED: &'static str = "/System/Library/CoreServices/CoreTypes.bundle/Contents/Resources/NotLoaded.icns";
pub const ICON_NOTIFICATIONS: &'static str = "/System/Library/CoreServices/CoreTypes.bundle/Contents/Resources/Notifications.icns";
pub const ICON_OPEN_FOLDER: &'static str = "/System/Library/CoreServices/CoreTypes.bundle/Contents/Resources/OpenFolderIcon.icns";
pub const ICON_PICTURES_FOLDER: &'static str = "/System/Library/CoreServices/CoreTypes.bundle/Contents/Resources/PicturesFolderIcon.icns";
pub const ICON_PRIVATE_FOLDER_BADGE: &'static str = "/System/Library/CoreServices/CoreTypes.bundle/Contents/Resources/PrivateFolderBadgeIcon.icns";
pub const ICON_PROBLEM_REPORT: &'static str = "/System/Library/CoreServices/CoreTypes.bundle/Contents/Resources/ProblemReport.icns";
pub const ICON_PROFILE_BACKGROUND_COLOR: &'static str = "/System/Library/CoreServices/CoreTypes.bundle/Contents/Resources/ProfileBackgroundColor.icns";
pub const ICON_PROFILE_FONT: &'static str = "/System/Library/CoreServices/CoreTypes.bundle/Contents/Resources/ProfileFont.icns";
pub const ICON_PROFILE_FONT_AND_COLOR: &'static str = "/System/Library/CoreServices/CoreTypes.bundle/Contents/Resources/ProfileFontAndColor.icns";
pub const ICON_PUBLIC_FOLDER: &'static str = "/System/Library/CoreServices/CoreTypes.bundle/Contents/Resources/PublicFolderIcon.icns";
pub const ICON_READ_ONLY_FOLDER_BADGE: &'static str = "/System/Library/CoreServices/CoreTypes.bundle/Contents/Resources/ReadOnlyFolderBadgeIcon.icns";
pub const ICON_REALITY_FILE: &'static str = "/System/Library/CoreServices/CoreTypes.bundle/Contents/Resources/RealityFile.icns";
pub const ICON_RECENT_ITEMS: &'static str = "/System/Library/CoreServices/CoreTypes.bundle/Contents/Resources/RecentItemsIcon.icns";
pub const ICON_RIGHT_CONTAINER_ARROW: &'static str = "/System/Library/CoreServices/CoreTypes.bundle/Contents/Resources/RightContainerArrowIcon.icns";
pub const ICON_SERVER_APPLICATIONS_FOLDER: &'static str = "/System/Library/CoreServices/CoreTypes.bundle/Contents/Resources/ServerApplicationsFolderIcon.icns";
pub const ICON_SIDEBAR_AIRDROP: &'static str = "/System/Library/CoreServices/CoreTypes.bundle/Contents/Resources/SidebarAirDrop.icns";
pub const ICON_SIDEBAR_AIRPORT_DISK: &'static str = "/System/Library/CoreServices/CoreTypes.bundle/Contents/Resources/SidebarAirportDisk.icns";
pub const ICON_SIDEBAR_AIRPORT_EXPRESS: &'static str = "/System/Library/CoreServices/CoreTypes.bundle/Contents/Resources/SidebarAirportExpress.icns";
pub const ICON_SIDEBAR_AIRPORT_EXTREME: &'static str = "/System/Library/CoreServices/CoreTypes.bundle/Contents/Resources/SidebarAirportExtreme.icns";
pub const ICON_SIDEBAR_AIRPORT_EXTREME_TOWER: &'static str = "/System/Library/CoreServices/CoreTypes.bundle/Contents/Resources/SidebarAirportExtremeTower.icns";
pub const ICON_SIDEBAR_ALL_MY_FILES: &'static str = "/System/Library/CoreServices/CoreTypes.bundle/Contents/Resources/SidebarAllMyFiles.icns";
pub const ICON_SIDEBAR_APPLICATIONS_FOLDER: &'static str = "/System/Library/CoreServices/CoreTypes.bundle/Contents/Resources/SidebarApplicationsFolder.icns";
pub const ICON_SIDEBAR_BONJOUR: &'static str = "/System/Library/CoreServices/CoreTypes.bundle/Contents/Resources/SidebarBonjour.icns";
pub const ICON_SIDEBAR_BURN_FOLDER: &'static str = "/System/Library/CoreServices/CoreTypes.bundle/Contents/Resources/SidebarBurnFolder.icns";
pub const ICON_SIDEBAR_DESKTOP_FOLDER: &'static str = "/System/Library/CoreServices/CoreTypes.bundle/Contents/Resources/SidebarDesktopFolder.icns";
pub const ICON_SIDEBAR_DISPLAY: &'static str = "/System/Library/CoreServices/CoreTypes.bundle/Contents/Resources/SidebarDisplay.icns";
pub const ICON_SIDEBAR_DOCUMENTS_FOLDER: &'static str = "/System/Library/CoreServices/CoreTypes.bundle/Contents/Resources/SidebarDocumentsFolder.icns";
pub const ICON_SIDEBAR_DOWNLOADS_FOLDER: &'static str = "/System/Library/CoreServices/CoreTypes.bundle/Contents/Resources/SidebarDownloadsFolder.icns";
pub const ICON_SIDEBAR_DROPBOX_FOLDER: &'static str = "/System/Library/CoreServices/CoreTypes.bundle/Contents/Resources/SidebarDropBoxFolder.icns";
pub const ICON_SIDEBAR_EXTERNAL_DISK: &'static str = "/System/Library/CoreServices/CoreTypes.bundle/Contents/Resources/SidebarExternalDisk.icns";
pub const ICON_SIDEBAR_GENERIC_FILE: &'static str = "/System/Library/CoreServices/CoreTypes.bundle/Contents/Resources/SidebarGenericFile.icns";
pub const ICON_SIDEBAR_GENERIC_FOLDER: &'static str = "/System/Library/CoreServices/CoreTypes.bundle/Contents/Resources/SidebarGenericFolder.icns";
pub const ICON_SIDEBAR_HOME_FOLDER: &'static str = "/System/Library/CoreServices/CoreTypes.bundle/Contents/Resources/SidebarHomeFolder.icns";
pub const ICON_SIDEBAR_INTERNAL_DISK: &'static str = "/System/Library/CoreServices/CoreTypes.bundle/Contents/Resources/SidebarInternalDisk.icns";
pub const ICON_SIDEBAR_LAPTOP: &'static str = "/System/Library/CoreServices/CoreTypes.bundle/Contents/Resources/SidebarLaptop.icns";
pub const ICON_SIDEBAR_MAC_MINI: &'static str = "/System/Library/CoreServices/CoreTypes.bundle/Contents/Resources/SidebarMacMini.icns";
pub const ICON_SIDEBAR_MAC_PRO: &'static str = "/System/Library/CoreServices/CoreTypes.bundle/Contents/Resources/SidebarMacPro.icns";
pub const ICON_SIDEBAR_MAC_PRO_CYLINDER: &'static str = "/System/Library/CoreServices/CoreTypes.bundle/Contents/Resources/SidebarMacProCylinder.icns";
pub const ICON_SIDEBAR_MOVIES_FOLDER: &'static str = "/System/Library/CoreServices/CoreTypes.bundle/Contents/Resources/SidebarMoviesFolder.icns";
pub const ICON_SIDEBAR_MUSIC_FOLDER: &'static str = "/System/Library/CoreServices/CoreTypes.bundle/Contents/Resources/SidebarMusicFolder.icns";
pub const ICON_SIDEBAR_NETWORK: &'static str = "/System/Library/CoreServices/CoreTypes.bundle/Contents/Resources/SidebarNetwork.icns";
pub const ICON_SIDEBAR_OPTICAL_DISK: &'static str = "/System/Library/CoreServices/CoreTypes.bundle/Contents/Resources/SidebarOpticalDisk.icns";
pub const ICON_SIDEBAR_PC: &'static str = "/System/Library/CoreServices/CoreTypes.bundle/Contents/Resources/SidebarPC.icns";
pub const ICON_SIDEBAR_PICTURES_FOLDER: &'static str = "/System/Library/CoreServices/CoreTypes.bundle/Contents/Resources/SidebarPicturesFolder.icns";
pub const ICON_SIDEBAR_PREFS: &'static str = "/System/Library/CoreServices/CoreTypes.bundle/Contents/Resources/SidebarPrefs.icns";
pub const ICON_SIDEBAR_RECENTS: &'static str = "/System/Library/CoreServices/CoreTypes.bundle/Contents/Resources/SidebarRecents.icns";
pub const ICON_SIDEBAR_REMOVABLE_DISK: &'static str = "/System/Library/CoreServices/CoreTypes.bundle/Contents/Resources/SidebarRemovableDisk.icns";
pub const ICON_SIDEBAR_SERVER_DRIVE: &'static str = "/System/Library/CoreServices/CoreTypes.bundle/Contents/Resources/SidebarServerDrive.icns";
pub const ICON_SIDEBAR_SMART_FOLDER: &'static str = "/System/Library/CoreServices/CoreTypes.bundle/Contents/Resources/SidebarSmartFolder.icns";
pub const ICON_SIDEBAR_TIME_CAPSULE: &'static str = "/System/Library/CoreServices/CoreTypes.bundle/Contents/Resources/SidebarTimeCapsule.icns";
pub const ICON_SIDEBAR_TIME_MACHINE: &'static str = "/System/Library/CoreServices/CoreTypes.bundle/Contents/Resources/SidebarTimeMachine.icns";
pub const ICON_SIDEBAR_UTILITIES_FOLDER: &'static str = "/System/Library/CoreServices/CoreTypes.bundle/Contents/Resources/SidebarUtilitiesFolder.icns";
pub const ICON_SIDEBAR_XSERVE: &'static str = "/System/Library/CoreServices/CoreTypes.bundle/Contents/Resources/SidebarXserve.icns";
pub const ICON_SIDEBAR_ICLOUD: &'static str = "/System/Library/CoreServices/CoreTypes.bundle/Contents/Resources/SidebariCloud.icns";
pub const ICON_SIDEBAR_IDISK: &'static str = "/System/Library/CoreServices/CoreTypes.bundle/Contents/Resources/SidebariDisk.icns";
pub const ICON_SIDEBAR_IMAC: &'static str = "/System/Library/CoreServices/CoreTypes.bundle/Contents/Resources/SidebariMac.icns";
pub const ICON_SIDEBAR_IPAD: &'static str = "/System/Library/CoreServices/CoreTypes.bundle/Contents/Resources/SidebariPad.icns";
pub const ICON_SIDEBAR_IPHONE: &'static str = "/System/Library/CoreServices/CoreTypes.bundle/Contents/Resources/SidebariPhone.icns";
pub const ICON_SIDEBAR_IPOD_TOUCH: &'static str = "/System/Library/CoreServices/CoreTypes.bundle/Contents/Resources/SidebariPodTouch.icns";
pub const ICON_SITES_FOLDER: &'static str = "/System/Library/CoreServices/CoreTypes.bundle/Contents/Resources/SitesFolderIcon.icns";
pub const ICON_SMART_FOLDER: &'static str = "/System/Library/CoreServices/CoreTypes.bundle/Contents/Resources/SmartFolderIcon.icns";
pub const ICON_SYNC: &'static str = "/System/Library/CoreServices/CoreTypes.bundle/Contents/Resources/Sync.icns";
pub const ICON_SYSTEM_FOLDER: &'static str = "/System/Library/CoreServices/CoreTypes.bundle/Contents/Resources/SystemFolderIcon.icns";
pub const ICON_TOOLBAR_ADVANCED: &'static str = "/System/Library/CoreServices/CoreTypes.bundle/Contents/Resources/ToolbarAdvanced.icns";
pub const ICON_TOOLBAR_CUSTOMIZE: &'static str = "/System/Library/CoreServices/CoreTypes.bundle/Contents/Resources/ToolbarCustomizeIcon.icns";
pub const ICON_TOOLBAR_DELETE: &'static str = "/System/Library/CoreServices/CoreTypes.bundle/Contents/Resources/ToolbarDeleteIcon.icns";
pub const ICON_TOOLBAR_FAVORITES: &'static str = "/System/Library/CoreServices/CoreTypes.bundle/Contents/Resources/ToolbarFavoritesIcon.icns";
pub const ICON_TOOLBAR_INFO: &'static str = "/System/Library/CoreServices/CoreTypes.bundle/Contents/Resources/ToolbarInfo.icns";
pub const ICON_TOOLBAR_LABELS: &'static str = "/System/Library/CoreServices/CoreTypes.bundle/Contents/Resources/ToolbarLabels.icns";
pub const ICON_TRASH: &'static str = "/System/Library/CoreServices/CoreTypes.bundle/Contents/Resources/TrashIcon.icns";
pub const ICON_UNKNOWN_FS_OBJECT: &'static str = "/System/Library/CoreServices/CoreTypes.bundle/Contents/Resources/UnknownFSObjectIcon.icns";
pub const ICON_UNLOCKED: &'static str = "/System/Library/CoreServices/CoreTypes.bundle/Contents/Resources/UnlockedIcon.icns";
pub const ICON_UNSUPPORTED: &'static str = "/System/Library/CoreServices/CoreTypes.bundle/Contents/Resources/Unsupported.icns";
pub const ICON_USER: &'static str = "/System/Library/CoreServices/CoreTypes.bundle/Contents/Resources/UserIcon.icns";
pub const ICON_USER_UNKNOWN: &'static str = "/System/Library/CoreServices/CoreTypes.bundle/Contents/Resources/UserUnknownIcon.icns";
pub const ICON_USERS_FOLDER: &'static str = "/System/Library/CoreServices/CoreTypes.bundle/Contents/Resources/UsersFolderIcon.icns";
pub const ICON_UTILITIES_FOLDER: &'static str = "/System/Library/CoreServices/CoreTypes.bundle/Contents/Resources/UtilitiesFolder.icns";

/// The icon of an item: a path to an image, or, when `type_` says
/// `filetype`, a uniform type identifier whose icon is shown.
#[derive(Debug, Clone, PartialEq, Eq, Hash)]
pub struct Icon {
    pub type_: Option<String>,
    pub path: String,
}

impl Icon {
    /// An icon read from the image at `path`.
    pub fn from_image(path: &str) -> (r: Icon)
        ensures
            r.type_ is None,
            r.path@ == path@,
    {
        Icon { type_: None, path: path.to_owned() }
    }

    /// The icon that the system shows for files of type `filetype`.
    pub fn for_filetype(filetype: &str) -> (r: Icon)
        ensures
            r.type_ is Some,
            r.type_->0@ == "filetype"@,
            r.path@ == filetype@,
    {
        Icon { type_: Some("filetype".to_owned()), path: filetype.to_owned() }
    }
}

impl From<&str> for Icon {
    fn from(path: &str) -> (r: Icon) {
        Icon::from_image(path)
    }
}

/// The conversion is stated by `Icon::from_image`; a `String` cannot be
/// built in a specification, so none is given here.
impl vstd::std_specs::convert::FromSpecImpl<&str> for Icon {
    open spec fn obeys_from_spec() -> bool {
        false
    }

    open spec fn from_spec(path: &str) -> Icon {
        choose|i: Icon| i.path@ == path@
    }
}

} // verus!
