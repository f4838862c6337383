//! Where a game's cloud files live on disk: the Steam Cloud root locations,
//! their numbers and names, platform filters, root overrides and the small
//! path rules used to find and match local save files.
use vstd::prelude::*;
use vstd::string::*;
use std::collections::HashMap;
use crate::text::{ascii_lowercase, is_ascii_text};

verus! {

/// A Steam Cloud storage root. Its number is the one Steam records in
/// `remotecache.vdf`; its name is the one of the Steamworks documentation.
#[derive(Debug, Clone, Copy, PartialEq, Eq, Structural)]
pub enum RootType {
    DefaultApi,
    GameInstall,
    WinMyDocuments,
    WinAppDataLocal,
    WinAppDataRoaming,
    SteamUserBaseStorage,
    MacHome,
    MacAppSupport,
    MacDocuments,
    WinSavedGames,
    WinProgramData,
    SteamCloudDocuments,
    WinAppDataLocalLow,
    MacCaches,
    LinuxHome,
    LinuxXdgDataHome,
    LinuxXdgConfigHome,
    AndroidSteamPackageRoot,
    WindowsHome,
}

/// The number of a root.
pub open spec fn root_code(r: RootType) -> u32 {
    match r {
        RootType::DefaultApi => 0u32,
        RootType::GameInstall => 1u32,
        RootType::WinMyDocuments => 2u32,
        RootType::WinAppDataLocal => 3u32,
        RootType::WinAppDataRoaming => 4u32,
        RootType::SteamUserBaseStorage => 5u32,
        RootType::MacHome => 6u32,
        RootType::MacAppSupport => 7u32,
        RootType::MacDocuments => 8u32,
        RootType::WinSavedGames => 9u32,
        RootType::WinProgramData => 10u32,
        RootType::SteamCloudDocuments => 11u32,
        RootType::WinAppDataLocalLow => 12u32,
        RootType::MacCaches => 13u32,
        RootType::LinuxHome => 14u32,
        RootType::LinuxXdgDataHome => 15u32,
        RootType::LinuxXdgConfigHome => 16u32,
        RootType::AndroidSteamPackageRoot => 17u32,
        RootType::WindowsHome => 18u32,
    }
}

/// The root with a given number, if there is one.
pub open spec fn root_for_code(v: u32) -> Option<RootType> {
    match v {
        0u32 => Some(RootType::DefaultApi),
        1u32 => Some(RootType::GameInstall),
        2u32 => Some(RootType::WinMyDocuments),
        3u32 => Some(RootType::WinAppDataLocal),
        4u32 => Some(RootType::WinAppDataRoaming),
        5u32 => Some(RootType::SteamUserBaseStorage),
        6u32 => Some(RootType::MacHome),
        7u32 => Some(RootType::MacAppSupport),
        8u32 => Some(RootType::MacDocuments),
        9u32 => Some(RootType::WinSavedGames),
        10u32 => Some(RootType::WinProgramData),
        11u32 => Some(RootType::SteamCloudDocuments),
        12u32 => Some(RootType::WinAppDataLocalLow),
        13u32 => Some(RootType::MacCaches),
        14u32 => Some(RootType::LinuxHome),
        15u32 => Some(RootType::LinuxXdgDataHome),
        16u32 => Some(RootType::LinuxXdgConfigHome),
        17u32 => Some(RootType::AndroidSteamPackageRoot),
        18u32 => Some(RootType::WindowsHome),
        _ => None,
    }
}

/// The display name of a root.
pub open spec fn root_name(r: RootType) -> Seq<char> {
    match r {
        RootType::DefaultApi => "Default(API)"@,
        RootType::GameInstall => "GameInstall"@,
        RootType::WinMyDocuments => "WinMyDocuments"@,
        RootType::WinAppDataLocal => "WinAppDataLocal"@,
        RootType::WinAppDataRoaming => "WinAppDataRoaming"@,
        RootType::SteamUserBaseStorage => "SteamUserBaseStorage"@,
        RootType::MacHome => "MacHome"@,
        RootType::MacAppSupport => "MacAppSupport"@,
        RootType::MacDocuments => "MacDocuments"@,
        RootType::WinSavedGames => "WinSavedGames"@,
        RootType::WinProgramData => "WinProgramData"@,
        RootType::SteamCloudDocuments => "SteamCloudDocuments"@,
        RootType::WinAppDataLocalLow => "WinAppDataLocalLow"@,
        RootType::MacCaches => "MacCaches"@,
        RootType::LinuxHome => "LinuxHome"@,
        RootType::LinuxXdgDataHome => "LinuxXdgDataHome"@,
        RootType::LinuxXdgConfigHome => "LinuxXdgConfigHome"@,
        RootType::AndroidSteamPackageRoot => "AndroidSteamPackageRoot"@,
        RootType::WindowsHome => "WindowsHome"@,
    }
}

/// The name of root number `v`, or `Unknown`.
pub open spec fn root_type_name(v: u32) -> Seq<char> {
    match root_for_code(v) {
        Some(r) => root_name(r),
        None => "Unknown"@,
    }
}

/// The root that a lowercased storage name designates, as the configuration
/// editor reads root names.
pub open spec fn root_of_lowercase_name(s: Seq<char>) -> Option<RootType> {
    if s == "steamclouddocuments"@ {
        Some(RootType::SteamCloudDocuments)
    } else if s == "gameinstall"@ || s == "appinstalldirectory"@ || s == "app install directory"@ {
        Some(RootType::GameInstall)
    } else if s == "winmydocuments"@ {
        Some(RootType::WinMyDocuments)
    } else if s == "winappdatalocal"@ {
        Some(RootType::WinAppDataLocal)
    } else if s == "winappdataroaming"@ {
        Some(RootType::WinAppDataRoaming)
    } else if s == "winappdatalocallow"@ {
        Some(RootType::WinAppDataLocalLow)
    } else if s == "winsavedgames"@ {
        Some(RootType::WinSavedGames)
    } else if s == "windowshome"@ {
        Some(RootType::WindowsHome)
    } else if s == "machome"@ {
        Some(RootType::MacHome)
    } else if s == "macappsupport"@ {
        Some(RootType::MacAppSupport)
    } else if s == "macdocuments"@ {
        Some(RootType::MacDocuments)
    } else if s == "linuxhome"@ {
        Some(RootType::LinuxHome)
    } else if s == "linuxxdgdatahome"@ {
        Some(RootType::LinuxXdgDataHome)
    } else if s == "linuxxdgconfighome"@ {
        Some(RootType::LinuxXdgConfigHome)
    } else {
        None
    }
}

/// The root that a lowercased `appinfo.vdf` root string designates: a name
/// (or `app install directory`) or the root's number in decimal.
pub open spec fn root_of_lowercase_type_name(s: Seq<char>) -> Option<RootType> {
    if s == "app install directory"@ || s == "gameinstall"@ || s == "1"@ {
        Some(RootType::GameInstall)
    } else if s == "steamclouddocuments"@ || s == "11"@ {
        Some(RootType::SteamCloudDocuments)
    } else if s == "0"@ {
        Some(RootType::DefaultApi)
    } else if s == "winmydocuments"@ || s == "2"@ {
        Some(RootType::WinMyDocuments)
    } else if s == "winappdatalocal"@ || s == "3"@ {
        Some(RootType::WinAppDataLocal)
    } else if s == "winappdataroaming"@ || s == "4"@ {
        Some(RootType::WinAppDataRoaming)
    } else if s == "winappdatalocallow"@ || s == "12"@ {
        Some(RootType::WinAppDataLocalLow)
    } else if s == "winsavedgames"@ || s == "9"@ {
        Some(RootType::WinSavedGames)
    } else if s == "windowshome"@ || s == "18"@ {
        Some(RootType::WindowsHome)
    } else if s == "machome"@ || s == "6"@ {
        Some(RootType::MacHome)
    } else if s == "macappsupport"@ || s == "7"@ {
        Some(RootType::MacAppSupport)
    } else if s == "macdocuments"@ || s == "8"@ {
        Some(RootType::MacDocuments)
    } else if s == "linuxhome"@ || s == "14"@ {
        Some(RootType::LinuxHome)
    } else if s == "linuxxdgdatahome"@ || s == "15"@ {
        Some(RootType::LinuxXdgDataHome)
    } else if s == "linuxxdgconfighome"@ || s == "16"@ {
        Some(RootType::LinuxXdgConfigHome)
    } else if s == "steamuserbasestorage"@ || s == "5"@ {
        Some(RootType::SteamUserBaseStorage)
    } else if s == "winprogramdata"@ || s == "10"@ {
        Some(RootType::WinProgramData)
    } else if s == "maccaches"@ || s == "13"@ {
        Some(RootType::MacCaches)
    } else if s == "androidsteampackageroot"@ || s == "17"@ {
        Some(RootType::AndroidSteamPackageRoot)
    } else {
        None
    }
}

impl RootType {
    /// The root with number `value`; numbers past the last root have none.
    pub fn from_u32(value: u32) -> (r: Option<Self>)
        ensures
            r == root_for_code(value),
    {
        match value {
            0 => Some(Self::DefaultApi),
            1 => Some(Self::GameInstall),
            2 => Some(Self::WinMyDocuments),
            3 => Some(Self::WinAppDataLocal),
            4 => Some(Self::WinAppDataRoaming),
            5 => Some(Self::SteamUserBaseStorage),
            6 => Some(Self::MacHome),
            7 => Some(Self::MacAppSupport),
            8 => Some(Self::MacDocuments),
            9 => Some(Self::WinSavedGames),
            10 => Some(Self::WinProgramData),
            11 => Some(Self::SteamCloudDocuments),
            12 => Some(Self::WinAppDataLocalLow),
            13 => Some(Self::MacCaches),
            14 => Some(Self::LinuxHome),
            15 => Some(Self::LinuxXdgDataHome),
            16 => Some(Self::LinuxXdgConfigHome),
            17 => Some(Self::AndroidSteamPackageRoot),
            18 => Some(Self::WindowsHome),
            _ => None,
        }
    }

    /// The number of the root.
    pub fn to_u32(self) -> (r: u32)
        ensures
            r == root_code(self),
    {
        match self {
            Self::DefaultApi => 0,
            Self::GameInstall => 1,
            Self::WinMyDocuments => 2,
            Self::WinAppDataLocal => 3,
            Self::WinAppDataRoaming => 4,
            Self::SteamUserBaseStorage => 5,
            Self::MacHome => 6,
            Self::MacAppSupport => 7,
            Self::MacDocuments => 8,
            Self::WinSavedGames => 9,
            Self::WinProgramData => 10,
            Self::SteamCloudDocuments => 11,
            Self::WinAppDataLocalLow => 12,
            Self::MacCaches => 13,
            Self::LinuxHome => 14,
            Self::LinuxXdgDataHome => 15,
            Self::LinuxXdgConfigHome => 16,
            Self::AndroidSteamPackageRoot => 17,
            Self::WindowsHome => 18,
        }
    }

    /// The display name of the root.
    pub fn to_name(self) -> (r: &'static str)
        ensures
            r@ == root_name(self),
    {
        match self {
            Self::DefaultApi => "Default(API)",
            Self::GameInstall => "GameInstall",
            Self::WinMyDocuments => "WinMyDocuments",
            Self::WinAppDataLocal => "WinAppDataLocal",
            Self::WinAppDataRoaming => "WinAppDataRoaming",
            Self::SteamUserBaseStorage => "SteamUserBaseStorage",
            Self::MacHome => "MacHome",
            Self::MacAppSupport => "MacAppSupport",
            Self::MacDocuments => "MacDocuments",
            Self::WinSavedGames => "WinSavedGames",
            Self::WinProgramData => "WinProgramData",
            Self::SteamCloudDocuments => "SteamCloudDocuments",
            Self::WinAppDataLocalLow => "WinAppDataLocalLow",
            Self::MacCaches => "MacCaches",
            Self::LinuxHome => "LinuxHome",
            Self::LinuxXdgDataHome => "LinuxXdgDataHome",
            Self::LinuxXdgConfigHome => "LinuxXdgConfigHome",
            Self::AndroidSteamPackageRoot => "AndroidSteamPackageRoot",
            Self::WindowsHome => "WindowsHome",
        }
    }

    /// Reads a storage name, ignoring case (`str::to_lowercase`). An ASCII
    /// name that equals a root's display name but for case reads back as that
    /// root, for every root whose display name the reader knows.
    pub fn from_name(name: &str) -> (r: Option<Self>)
        ensures
            r == root_of_lowercase_name(crate::text::unicode_lowercase(name@)),
            is_ascii_text(name@) ==> r == root_of_lowercase_name(ascii_lowercase(name@)),
            forall|rt: RootType|
                !(rt is DefaultApi || rt is SteamUserBaseStorage || rt is WinProgramData || rt is MacCaches
                    || rt is AndroidSteamPackageRoot) && ascii_lowercase(name@)
                    == ascii_lowercase(#[trigger] root_name(rt)) ==> r == Some(rt),
    {
        let lower = crate::text::to_lowercase(name);
        proof {
            assert forall|rt: RootType|
                !(rt is DefaultApi || rt is SteamUserBaseStorage || rt is WinProgramData || rt is MacCaches
                    || rt is AndroidSteamPackageRoot) && ascii_lowercase(name@)
                    == ascii_lowercase(#[trigger] root_name(rt)) implies root_of_lowercase_name(lower@) == Some(rt) by {
                lemma_root_name_ascii(rt);
                crate::text::lemma_ascii_case_variant(name@, root_name(rt));
                lemma_root_name_read_back(rt);
            }
        }
        Self::from_lowercase_name(lower.as_str())
    }

    /// Reads a storage name that is already in lower case.
    pub fn from_lowercase_name(lower: &str) -> (r: Option<Self>)
        ensures
            r == root_of_lowercase_name(lower@),
    {
        if crate::text::str_eq(lower, "steamclouddocuments") {
            Some(RootType::SteamCloudDocuments)
        } else if crate::text::str_eq(lower, "gameinstall") || crate::text::str_eq(lower, "appinstalldirectory") || crate::text::str_eq(lower, "app install directory") {
            Some(RootType::GameInstall)
        } else if crate::text::str_eq(lower, "winmydocuments") {
            Some(RootType::WinMyDocuments)
        } else if crate::text::str_eq(lower, "winappdatalocal") {
            Some(RootType::WinAppDataLocal)
        } else if crate::text::str_eq(lower, "winappdataroaming") {
            Some(RootType::WinAppDataRoaming)
        } else if crate::text::str_eq(lower, "winappdatalocallow") {
            Some(RootType::WinAppDataLocalLow)
        } else if crate::text::str_eq(lower, "winsavedgames") {
            Some(RootType::WinSavedGames)
        } else if crate::text::str_eq(lower, "windowshome") {
            Some(RootType::WindowsHome)
        } else if crate::text::str_eq(lower, "machome") {
            Some(RootType::MacHome)
        } else if crate::text::str_eq(lower, "macappsupport") {
            Some(RootType::MacAppSupport)
        } else if crate::text::str_eq(lower, "macdocuments") {
            Some(RootType::MacDocuments)
        } else if crate::text::str_eq(lower, "linuxhome") {
            Some(RootType::LinuxHome)
        } else if crate::text::str_eq(lower, "linuxxdgdatahome") {
            Some(RootType::LinuxXdgDataHome)
        } else if crate::text::str_eq(lower, "linuxxdgconfighome") {
            Some(RootType::LinuxXdgConfigHome)
        } else {
            None
        }
    }
}

/// The name of root number `root`, or `Unknown` for a number past the last root.
pub fn get_root_type_name(root: u32) -> (r: &'static str)
    ensures
        r@ == root_type_name(root),
{
    match RootType::from_u32(root) {
        Some(t) => t.to_name(),
        None => "Unknown",
    }
}

/// Reads an `appinfo.vdf` root string (a root name or number), ignoring case.
pub fn root_name_to_type(name: &str) -> (r: Option<RootType>)
    ensures
        r == root_of_lowercase_type_name(crate::text::unicode_lowercase(name@)),
        is_ascii_text(name@) ==> r == root_of_lowercase_type_name(ascii_lowercase(name@)),
        forall|rt: RootType|
            !(rt is DefaultApi) && ascii_lowercase(name@) == ascii_lowercase(#[trigger] root_name(rt))
                ==> r == Some(rt),
        forall|rt: RootType| name@ == crate::text::decimal(#[trigger] root_code(rt) as nat) ==> r == Some(rt),
{
    let lower = crate::text::to_lowercase(name);
    proof {
        assert forall|rt: RootType|
            !(rt is DefaultApi) && ascii_lowercase(name@) == ascii_lowercase(#[trigger] root_name(rt))
                implies root_of_lowercase_type_name(lower@) == Some(rt) by {
            lemma_root_name_ascii(rt);
            crate::text::lemma_ascii_case_variant(name@, root_name(rt));
            lemma_root_type_name_read_back(rt);
        }
        assert forall|rt: RootType| name@ == crate::text::decimal(#[trigger] root_code(rt) as nat)
            implies root_of_lowercase_type_name(lower@) == Some(rt) by {
            lemma_root_number_read_back(rt);
            crate::text::lemma_decimal_ascii_lowercase(root_code(rt) as nat);
        }
    }
    lowercase_root_name_to_type(lower.as_str())
}

/// Reads an `appinfo.vdf` root string that is already in lower case.
pub fn lowercase_root_name_to_type(lower: &str) -> (r: Option<RootType>)
    ensures
        r == root_of_lowercase_type_name(lower@),
{
        if crate::text::str_eq(lower, "app install directory") || crate::text::str_eq(lower, "gameinstall") || crate::text::str_eq(lower, "1") {
            Some(RootType::GameInstall)
        } else if crate::text::str_eq(lower, "steamclouddocuments") || crate::text::str_eq(lower, "11") {
            Some(RootType::SteamCloudDocuments)
        } else if crate::text::str_eq(lower, "0") {
            Some(RootType::DefaultApi)
        } else if crate::text::str_eq(lower, "winmydocuments") || crate::text::str_eq(lower, "2") {
            Some(RootType::WinMyDocuments)
        } else if crate::text::str_eq(lower, "winappdatalocal") || crate::text::str_eq(lower, "3") {
            Some(RootType::WinAppDataLocal)
        } else if crate::text::str_eq(lower, "winappdataroaming") || crate::text::str_eq(lower, "4") {
            Some(RootType::WinAppDataRoaming)
        } else if crate::text::str_eq(lower, "winappdatalocallow") || crate::text::str_eq(lower, "12") {
            Some(RootType::WinAppDataLocalLow)
        } else if crate::text::str_eq(lower, "winsavedgames") || crate::text::str_eq(lower, "9") {
            Some(RootType::WinSavedGames)
        } else if crate::text::str_eq(lower, "windowshome") || crate::text::str_eq(lower, "18") {
            Some(RootType::WindowsHome)
        } else if crate::text::str_eq(lower, "machome") || crate::text::str_eq(lower, "6") {
            Some(RootType::MacHome)
        } else if crate::text::str_eq(lower, "macappsupport") || crate::text::str_eq(lower, "7") {
            Some(RootType::MacAppSupport)
        } else if crate::text::str_eq(lower, "macdocuments") || crate::text::str_eq(lower, "8") {
            Some(RootType::MacDocuments)
        } else if crate::text::str_eq(lower, "linuxhome") || crate::text::str_eq(lower, "14") {
            Some(RootType::LinuxHome)
        } else if crate::text::str_eq(lower, "linuxxdgdatahome") || crate::text::str_eq(lower, "15") {
            Some(RootType::LinuxXdgDataHome)
        } else if crate::text::str_eq(lower, "linuxxdgconfighome") || crate::text::str_eq(lower, "16") {
            Some(RootType::LinuxXdgConfigHome)
        } else if crate::text::str_eq(lower, "steamuserbasestorage") || crate::text::str_eq(lower, "5") {
            Some(RootType::SteamUserBaseStorage)
        } else if crate::text::str_eq(lower, "winprogramdata") || crate::text::str_eq(lower, "10") {
            Some(RootType::WinProgramData)
        } else if crate::text::str_eq(lower, "maccaches") || crate::text::str_eq(lower, "13") {
            Some(RootType::MacCaches)
        } else if crate::text::str_eq(lower, "androidsteampackageroot") || crate::text::str_eq(lower, "17") {
            Some(RootType::AndroidSteamPackageRoot)
        } else {
            None
        }
}

} // verus!

verus! {




/// Every root's display name is ASCII text.
pub proof fn lemma_root_name_ascii(r: RootType)
    ensures
        is_ascii_text(root_name(r)),
{
    reveal_strlit("Default(API)");
    reveal_strlit("GameInstall");
    reveal_strlit("WinMyDocuments");
    reveal_strlit("WinAppDataLocal");
    reveal_strlit("WinAppDataRoaming");
    reveal_strlit("SteamUserBaseStorage");
    reveal_strlit("MacHome");
    reveal_strlit("MacAppSupport");
    reveal_strlit("MacDocuments");
    reveal_strlit("WinSavedGames");
    reveal_strlit("WinProgramData");
    reveal_strlit("SteamCloudDocuments");
    reveal_strlit("WinAppDataLocalLow");
    reveal_strlit("MacCaches");
    reveal_strlit("LinuxHome");
    reveal_strlit("LinuxXdgDataHome");
    reveal_strlit("LinuxXdgConfigHome");
    reveal_strlit("AndroidSteamPackageRoot");
    reveal_strlit("WindowsHome");
}

/// Reading back a root's display name gives the root again, ignoring ASCII
/// case, for every root that the storage-name reader knows.
pub proof fn lemma_root_name_read_back(r: RootType)
    requires
        !(r is DefaultApi || r is SteamUserBaseStorage || r is WinProgramData || r is MacCaches
            || r is AndroidSteamPackageRoot),
    ensures
        root_of_lowercase_name(ascii_lowercase(root_name(r))) == Some(r),
{
    match r {
        RootType::DefaultApi => {}
        RootType::GameInstall => {
            reveal_strlit("GameInstall");
            reveal_strlit("gameinstall");
            reveal_strlit("steamclouddocuments");
            assert(ascii_lowercase("GameInstall"@) =~= "gameinstall"@);
        }
        RootType::WinMyDocuments => {
            reveal_strlit("WinMyDocuments");
            reveal_strlit("winmydocuments");
            reveal_strlit("steamclouddocuments");
            reveal_strlit("gameinstall");
            reveal_strlit("appinstalldirectory");
            reveal_strlit("app install directory");
            assert(ascii_lowercase("WinMyDocuments"@) =~= "winmydocuments"@);
        }
        RootType::WinAppDataLocal => {
            reveal_strlit("WinAppDataLocal");
            reveal_strlit("winappdatalocal");
            reveal_strlit("steamclouddocuments");
            reveal_strlit("gameinstall");
            reveal_strlit("appinstalldirectory");
            reveal_strlit("app install directory");
            reveal_strlit("winmydocuments");
            assert(ascii_lowercase("WinAppDataLocal"@) =~= "winappdatalocal"@);
        }
        RootType::WinAppDataRoaming => {
            reveal_strlit("WinAppDataRoaming");
            reveal_strlit("winappdataroaming");
            reveal_strlit("steamclouddocuments");
            reveal_strlit("gameinstall");
            reveal_strlit("appinstalldirectory");
            reveal_strlit("app install directory");
            reveal_strlit("winmydocuments");
            reveal_strlit("winappdatalocal");
            assert(ascii_lowercase("WinAppDataRoaming"@) =~= "winappdataroaming"@);
        }
        RootType::SteamUserBaseStorage => {}
        RootType::MacHome => {
            reveal_strlit("MacHome");
            reveal_strlit("machome");
            reveal_strlit("steamclouddocuments");
            reveal_strlit("gameinstall");
            reveal_strlit("appinstalldirectory");
            reveal_strlit("app install directory");
            reveal_strlit("winmydocuments");
            reveal_strlit("winappdatalocal");
            reveal_strlit("winappdataroaming");
            reveal_strlit("winappdatalocallow");
            reveal_strlit("winsavedgames");
            reveal_strlit("windowshome");
            assert(ascii_lowercase("MacHome"@) =~= "machome"@);
        }
        RootType::MacAppSupport => {
            reveal_strlit("MacAppSupport");
            reveal_strlit("macappsupport");
            reveal_strlit("steamclouddocuments");
            reveal_strlit("gameinstall");
            reveal_strlit("appinstalldirectory");
            reveal_strlit("app install directory");
            reveal_strlit("winmydocuments");
            reveal_strlit("winappdatalocal");
            reveal_strlit("winappdataroaming");
            reveal_strlit("winappdatalocallow");
            reveal_strlit("winsavedgames");
            assert("winsavedgames"@[0] != "macappsupport"@[0]);
            reveal_strlit("windowshome");
            reveal_strlit("machome");
            assert(ascii_lowercase("MacAppSupport"@) =~= "macappsupport"@);
        }
        RootType::MacDocuments => {
            reveal_strlit("MacDocuments");
            reveal_strlit("macdocuments");
            reveal_strlit("steamclouddocuments");
            reveal_strlit("gameinstall");
            reveal_strlit("appinstalldirectory");
            reveal_strlit("app install directory");
            reveal_strlit("winmydocuments");
            reveal_strlit("winappdatalocal");
            reveal_strlit("winappdataroaming");
            reveal_strlit("winappdatalocallow");
            reveal_strlit("winsavedgames");
            reveal_strlit("windowshome");
            reveal_strlit("machome");
            reveal_strlit("macappsupport");
            assert(ascii_lowercase("MacDocuments"@) =~= "macdocuments"@);
        }
        RootType::WinSavedGames => {
            reveal_strlit("WinSavedGames");
            reveal_strlit("winsavedgames");
            reveal_strlit("steamclouddocuments");
            reveal_strlit("gameinstall");
            reveal_strlit("appinstalldirectory");
            reveal_strlit("app install directory");
            reveal_strlit("winmydocuments");
            reveal_strlit("winappdatalocal");
            reveal_strlit("winappdataroaming");
            reveal_strlit("winappdatalocallow");
            assert(ascii_lowercase("WinSavedGames"@) =~= "winsavedgames"@);
        }
        RootType::WinProgramData => {}
        RootType::SteamCloudDocuments => {
            reveal_strlit("SteamCloudDocuments");
            reveal_strlit("steamclouddocuments");
            assert(ascii_lowercase("SteamCloudDocuments"@) =~= "steamclouddocuments"@);
        }
        RootType::WinAppDataLocalLow => {
            reveal_strlit("WinAppDataLocalLow");
            reveal_strlit("winappdatalocallow");
            reveal_strlit("steamclouddocuments");
            reveal_strlit("gameinstall");
            reveal_strlit("appinstalldirectory");
            reveal_strlit("app install directory");
            reveal_strlit("winmydocuments");
            reveal_strlit("winappdatalocal");
            reveal_strlit("winappdataroaming");
            assert(ascii_lowercase("WinAppDataLocalLow"@) =~= "winappdatalocallow"@);
        }
        RootType::MacCaches => {}
        RootType::LinuxHome => {
            reveal_strlit("LinuxHome");
            reveal_strlit("linuxhome");
            reveal_strlit("steamclouddocuments");
            reveal_strlit("gameinstall");
            reveal_strlit("appinstalldirectory");
            reveal_strlit("app install directory");
            reveal_strlit("winmydocuments");
            reveal_strlit("winappdatalocal");
            reveal_strlit("winappdataroaming");
            reveal_strlit("winappdatalocallow");
            reveal_strlit("winsavedgames");
            reveal_strlit("windowshome");
            reveal_strlit("machome");
            reveal_strlit("macappsupport");
            reveal_strlit("macdocuments");
            assert(ascii_lowercase("LinuxHome"@) =~= "linuxhome"@);
        }
        RootType::LinuxXdgDataHome => {
            reveal_strlit("LinuxXdgDataHome");
            reveal_strlit("linuxxdgdatahome");
            reveal_strlit("steamclouddocuments");
            reveal_strlit("gameinstall");
            reveal_strlit("appinstalldirectory");
            reveal_strlit("app install directory");
            reveal_strlit("winmydocuments");
            reveal_strlit("winappdatalocal");
            reveal_strlit("winappdataroaming");
            reveal_strlit("winappdatalocallow");
            reveal_strlit("winsavedgames");
            reveal_strlit("windowshome");
            reveal_strlit("machome");
            reveal_strlit("macappsupport");
            reveal_strlit("macdocuments");
            reveal_strlit("linuxhome");
            assert(ascii_lowercase("LinuxXdgDataHome"@) =~= "linuxxdgdatahome"@);
        }
        RootType::LinuxXdgConfigHome => {
            reveal_strlit("LinuxXdgConfigHome");
            reveal_strlit("linuxxdgconfighome");
            reveal_strlit("steamclouddocuments");
            reveal_strlit("gameinstall");
            reveal_strlit("appinstalldirectory");
            reveal_strlit("app install directory");
            reveal_strlit("winmydocuments");
            reveal_strlit("winappdatalocal");
            reveal_strlit("winappdataroaming");
            reveal_strlit("winappdatalocallow");
            assert("winappdatalocallow"@[0] != "linuxxdgconfighome"@[0]);
            reveal_strlit("winsavedgames");
            reveal_strlit("windowshome");
            reveal_strlit("machome");
            reveal_strlit("macappsupport");
            reveal_strlit("macdocuments");
            reveal_strlit("linuxhome");
            reveal_strlit("linuxxdgdatahome");
            assert(ascii_lowercase("LinuxXdgConfigHome"@) =~= "linuxxdgconfighome"@);
        }
        RootType::AndroidSteamPackageRoot => {}
        RootType::WindowsHome => {
            reveal_strlit("WindowsHome");
            reveal_strlit("windowshome");
            reveal_strlit("steamclouddocuments");
            reveal_strlit("gameinstall");
            assert("gameinstall"@[0] != "windowshome"@[0]);
            reveal_strlit("appinstalldirectory");
            reveal_strlit("app install directory");
            reveal_strlit("winmydocuments");
            reveal_strlit("winappdatalocal");
            reveal_strlit("winappdataroaming");
            reveal_strlit("winappdatalocallow");
            reveal_strlit("winsavedgames");
            assert(ascii_lowercase("WindowsHome"@) =~= "windowshome"@);
        }
    }
}

/// Reading back a root's display name as an `appinfo.vdf` root string gives the
/// root again, ignoring ASCII case, for every root but the default one (whose
/// display name is not a root string).
pub proof fn lemma_root_type_name_read_back(r: RootType)
    requires
        !(r is DefaultApi),
    ensures
        root_of_lowercase_type_name(ascii_lowercase(root_name(r))) == Some(r),
{
    match r {
        RootType::DefaultApi => {}
        RootType::GameInstall => {
            reveal_strlit("GameInstall");
            reveal_strlit("gameinstall");
            reveal_strlit("app install directory");
            assert(ascii_lowercase("GameInstall"@) =~= "gameinstall"@);
        }
        RootType::WinMyDocuments => {
            reveal_strlit("WinMyDocuments");
            reveal_strlit("winmydocuments");
            reveal_strlit("app install directory");
            reveal_strlit("gameinstall");
            reveal_strlit("1");
            reveal_strlit("steamclouddocuments");
            reveal_strlit("11");
            reveal_strlit("0");
            assert(ascii_lowercase("WinMyDocuments"@) =~= "winmydocuments"@);
        }
        RootType::WinAppDataLocal => {
            reveal_strlit("WinAppDataLocal");
            reveal_strlit("winappdatalocal");
            reveal_strlit("app install directory");
            reveal_strlit("gameinstall");
            reveal_strlit("1");
            reveal_strlit("steamclouddocuments");
            reveal_strlit("11");
            reveal_strlit("0");
            reveal_strlit("winmydocuments");
            reveal_strlit("2");
            assert(ascii_lowercase("WinAppDataLocal"@) =~= "winappdatalocal"@);
        }
        RootType::WinAppDataRoaming => {
            reveal_strlit("WinAppDataRoaming");
            reveal_strlit("winappdataroaming");
            reveal_strlit("app install directory");
            reveal_strlit("gameinstall");
            reveal_strlit("1");
            reveal_strlit("steamclouddocuments");
            reveal_strlit("11");
            reveal_strlit("0");
            reveal_strlit("winmydocuments");
            reveal_strlit("2");
            reveal_strlit("winappdatalocal");
            reveal_strlit("3");
            assert(ascii_lowercase("WinAppDataRoaming"@) =~= "winappdataroaming"@);
        }
        RootType::SteamUserBaseStorage => {
            reveal_strlit("SteamUserBaseStorage");
            reveal_strlit("steamuserbasestorage");
            reveal_strlit("app install directory");
            reveal_strlit("gameinstall");
            reveal_strlit("1");
            reveal_strlit("steamclouddocuments");
            reveal_strlit("11");
            reveal_strlit("0");
            reveal_strlit("winmydocuments");
            reveal_strlit("2");
            reveal_strlit("winappdatalocal");
            reveal_strlit("3");
            reveal_strlit("winappdataroaming");
            reveal_strlit("4");
            reveal_strlit("winappdatalocallow");
            reveal_strlit("12");
            reveal_strlit("winsavedgames");
            reveal_strlit("9");
            reveal_strlit("windowshome");
            reveal_strlit("18");
            reveal_strlit("machome");
            reveal_strlit("6");
            reveal_strlit("macappsupport");
            reveal_strlit("7");
            reveal_strlit("macdocuments");
            reveal_strlit("8");
            reveal_strlit("linuxhome");
            reveal_strlit("14");
            reveal_strlit("linuxxdgdatahome");
            reveal_strlit("15");
            reveal_strlit("linuxxdgconfighome");
            reveal_strlit("16");
            assert(ascii_lowercase("SteamUserBaseStorage"@) =~= "steamuserbasestorage"@);
        }
        RootType::MacHome => {
            reveal_strlit("MacHome");
            reveal_strlit("machome");
            reveal_strlit("app install directory");
            reveal_strlit("gameinstall");
            reveal_strlit("1");
            reveal_strlit("steamclouddocuments");
            reveal_strlit("11");
            reveal_strlit("0");
            reveal_strlit("winmydocuments");
            reveal_strlit("2");
            reveal_strlit("winappdatalocal");
            reveal_strlit("3");
            reveal_strlit("winappdataroaming");
            reveal_strlit("4");
            reveal_strlit("winappdatalocallow");
            reveal_strlit("12");
            reveal_strlit("winsavedgames");
            reveal_strlit("9");
            reveal_strlit("windowshome");
            reveal_strlit("18");
            assert(ascii_lowercase("MacHome"@) =~= "machome"@);
        }
        RootType::MacAppSupport => {
            reveal_strlit("MacAppSupport");
            reveal_strlit("macappsupport");
            reveal_strlit("app install directory");
            reveal_strlit("gameinstall");
            reveal_strlit("1");
            reveal_strlit("steamclouddocuments");
            reveal_strlit("11");
            reveal_strlit("0");
            reveal_strlit("winmydocuments");
            reveal_strlit("2");
            reveal_strlit("winappdatalocal");
            reveal_strlit("3");
            reveal_strlit("winappdataroaming");
            reveal_strlit("4");
            reveal_strlit("winappdatalocallow");
            reveal_strlit("12");
            reveal_strlit("winsavedgames");
            assert("winsavedgames"@[0] != "macappsupport"@[0]);
            reveal_strlit("9");
            reveal_strlit("windowshome");
            reveal_strlit("18");
            reveal_strlit("machome");
            reveal_strlit("6");
            assert(ascii_lowercase("MacAppSupport"@) =~= "macappsupport"@);
        }
        RootType::MacDocuments => {
            reveal_strlit("MacDocuments");
            reveal_strlit("macdocuments");
            reveal_strlit("app install directory");
            reveal_strlit("gameinstall");
            reveal_strlit("1");
            reveal_strlit("steamclouddocuments");
            reveal_strlit("11");
            reveal_strlit("0");
            reveal_strlit("winmydocuments");
            reveal_strlit("2");
            reveal_strlit("winappdatalocal");
            reveal_strlit("3");
            reveal_strlit("winappdataroaming");
            reveal_strlit("4");
            reveal_strlit("winappdatalocallow");
            reveal_strlit("12");
            reveal_strlit("winsavedgames");
            reveal_strlit("9");
            reveal_strlit("windowshome");
            reveal_strlit("18");
            reveal_strlit("machome");
            reveal_strlit("6");
            reveal_strlit("macappsupport");
            reveal_strlit("7");
            assert(ascii_lowercase("MacDocuments"@) =~= "macdocuments"@);
        }
        RootType::WinSavedGames => {
            reveal_strlit("WinSavedGames");
            reveal_strlit("winsavedgames");
            reveal_strlit("app install directory");
            reveal_strlit("gameinstall");
            reveal_strlit("1");
            reveal_strlit("steamclouddocuments");
            reveal_strlit("11");
            reveal_strlit("0");
            reveal_strlit("winmydocuments");
            reveal_strlit("2");
            reveal_strlit("winappdatalocal");
            reveal_strlit("3");
            reveal_strlit("winappdataroaming");
            reveal_strlit("4");
            reveal_strlit("winappdatalocallow");
            reveal_strlit("12");
            assert(ascii_lowercase("WinSavedGames"@) =~= "winsavedgames"@);
        }
        RootType::WinProgramData => {
            reveal_strlit("WinProgramData");
            reveal_strlit("winprogramdata");
            reveal_strlit("app install directory");
            reveal_strlit("gameinstall");
            reveal_strlit("1");
            reveal_strlit("steamclouddocuments");
            reveal_strlit("11");
            reveal_strlit("0");
            reveal_strlit("winmydocuments");
            assert("winmydocuments"@[3] != "winprogramdata"@[3]);
            reveal_strlit("2");
            reveal_strlit("winappdatalocal");
            reveal_strlit("3");
            reveal_strlit("winappdataroaming");
            reveal_strlit("4");
            reveal_strlit("winappdatalocallow");
            reveal_strlit("12");
            reveal_strlit("winsavedgames");
            reveal_strlit("9");
            reveal_strlit("windowshome");
            reveal_strlit("18");
            reveal_strlit("machome");
            reveal_strlit("6");
            reveal_strlit("macappsupport");
            reveal_strlit("7");
            reveal_strlit("macdocuments");
            reveal_strlit("8");
            reveal_strlit("linuxhome");
            reveal_strlit("14");
            reveal_strlit("linuxxdgdatahome");
            reveal_strlit("15");
            reveal_strlit("linuxxdgconfighome");
            reveal_strlit("16");
            reveal_strlit("steamuserbasestorage");
            reveal_strlit("5");
            assert(ascii_lowercase("WinProgramData"@) =~= "winprogramdata"@);
        }
        RootType::SteamCloudDocuments => {
            reveal_strlit("SteamCloudDocuments");
            reveal_strlit("steamclouddocuments");
            reveal_strlit("app install directory");
            reveal_strlit("gameinstall");
            reveal_strlit("1");
            assert(ascii_lowercase("SteamCloudDocuments"@) =~= "steamclouddocuments"@);
        }
        RootType::WinAppDataLocalLow => {
            reveal_strlit("WinAppDataLocalLow");
            reveal_strlit("winappdatalocallow");
            reveal_strlit("app install directory");
            reveal_strlit("gameinstall");
            reveal_strlit("1");
            reveal_strlit("steamclouddocuments");
            reveal_strlit("11");
            reveal_strlit("0");
            reveal_strlit("winmydocuments");
            reveal_strlit("2");
            reveal_strlit("winappdatalocal");
            reveal_strlit("3");
            reveal_strlit("winappdataroaming");
            reveal_strlit("4");
            assert(ascii_lowercase("WinAppDataLocalLow"@) =~= "winappdatalocallow"@);
        }
        RootType::MacCaches => {
            reveal_strlit("MacCaches");
            reveal_strlit("maccaches");
            reveal_strlit("app install directory");
            reveal_strlit("gameinstall");
            reveal_strlit("1");
            reveal_strlit("steamclouddocuments");
            reveal_strlit("11");
            reveal_strlit("0");
            reveal_strlit("winmydocuments");
            reveal_strlit("2");
            reveal_strlit("winappdatalocal");
            reveal_strlit("3");
            reveal_strlit("winappdataroaming");
            reveal_strlit("4");
            reveal_strlit("winappdatalocallow");
            reveal_strlit("12");
            reveal_strlit("winsavedgames");
            reveal_strlit("9");
            reveal_strlit("windowshome");
            reveal_strlit("18");
            reveal_strlit("machome");
            reveal_strlit("6");
            reveal_strlit("macappsupport");
            reveal_strlit("7");
            reveal_strlit("macdocuments");
            reveal_strlit("8");
            reveal_strlit("linuxhome");
            assert("linuxhome"@[0] != "maccaches"@[0]);
            reveal_strlit("14");
            reveal_strlit("linuxxdgdatahome");
            reveal_strlit("15");
            reveal_strlit("linuxxdgconfighome");
            reveal_strlit("16");
            reveal_strlit("steamuserbasestorage");
            reveal_strlit("5");
            reveal_strlit("winprogramdata");
            reveal_strlit("10");
            assert(ascii_lowercase("MacCaches"@) =~= "maccaches"@);
        }
        RootType::LinuxHome => {
            reveal_strlit("LinuxHome");
            reveal_strlit("linuxhome");
            reveal_strlit("app install directory");
            reveal_strlit("gameinstall");
            reveal_strlit("1");
            reveal_strlit("steamclouddocuments");
            reveal_strlit("11");
            reveal_strlit("0");
            reveal_strlit("winmydocuments");
            reveal_strlit("2");
            reveal_strlit("winappdatalocal");
            reveal_strlit("3");
            reveal_strlit("winappdataroaming");
            reveal_strlit("4");
            reveal_strlit("winappdatalocallow");
            reveal_strlit("12");
            reveal_strlit("winsavedgames");
            reveal_strlit("9");
            reveal_strlit("windowshome");
            reveal_strlit("18");
            reveal_strlit("machome");
            reveal_strlit("6");
            reveal_strlit("macappsupport");
            reveal_strlit("7");
            reveal_strlit("macdocuments");
            reveal_strlit("8");
            assert(ascii_lowercase("LinuxHome"@) =~= "linuxhome"@);
        }
        RootType::LinuxXdgDataHome => {
            reveal_strlit("LinuxXdgDataHome");
            reveal_strlit("linuxxdgdatahome");
            reveal_strlit("app install directory");
            reveal_strlit("gameinstall");
            reveal_strlit("1");
            reveal_strlit("steamclouddocuments");
            reveal_strlit("11");
            reveal_strlit("0");
            reveal_strlit("winmydocuments");
            reveal_strlit("2");
            reveal_strlit("winappdatalocal");
            reveal_strlit("3");
            reveal_strlit("winappdataroaming");
            reveal_strlit("4");
            reveal_strlit("winappdatalocallow");
            reveal_strlit("12");
            reveal_strlit("winsavedgames");
            reveal_strlit("9");
            reveal_strlit("windowshome");
            reveal_strlit("18");
            reveal_strlit("machome");
            reveal_strlit("6");
            reveal_strlit("macappsupport");
            reveal_strlit("7");
            reveal_strlit("macdocuments");
            reveal_strlit("8");
            reveal_strlit("linuxhome");
            reveal_strlit("14");
            assert(ascii_lowercase("LinuxXdgDataHome"@) =~= "linuxxdgdatahome"@);
        }
        RootType::LinuxXdgConfigHome => {
            reveal_strlit("LinuxXdgConfigHome");
            reveal_strlit("linuxxdgconfighome");
            reveal_strlit("app install directory");
            reveal_strlit("gameinstall");
            reveal_strlit("1");
            reveal_strlit("steamclouddocuments");
            reveal_strlit("11");
            reveal_strlit("0");
            reveal_strlit("winmydocuments");
            reveal_strlit("2");
            reveal_strlit("winappdatalocal");
            reveal_strlit("3");
            reveal_strlit("winappdataroaming");
            reveal_strlit("4");
            reveal_strlit("winappdatalocallow");
            assert("winappdatalocallow"@[0] != "linuxxdgconfighome"@[0]);
            reveal_strlit("12");
            reveal_strlit("winsavedgames");
            reveal_strlit("9");
            reveal_strlit("windowshome");
            reveal_strlit("18");
            reveal_strlit("machome");
            reveal_strlit("6");
            reveal_strlit("macappsupport");
            reveal_strlit("7");
            reveal_strlit("macdocuments");
            reveal_strlit("8");
            reveal_strlit("linuxhome");
            reveal_strlit("14");
            reveal_strlit("linuxxdgdatahome");
            reveal_strlit("15");
            assert(ascii_lowercase("LinuxXdgConfigHome"@) =~= "linuxxdgconfighome"@);
        }
        RootType::AndroidSteamPackageRoot => {
            reveal_strlit("AndroidSteamPackageRoot");
            reveal_strlit("androidsteampackageroot");
            reveal_strlit("app install directory");
            reveal_strlit("gameinstall");
            reveal_strlit("1");
            reveal_strlit("steamclouddocuments");
            reveal_strlit("11");
            reveal_strlit("0");
            reveal_strlit("winmydocuments");
            reveal_strlit("2");
            reveal_strlit("winappdatalocal");
            reveal_strlit("3");
            reveal_strlit("winappdataroaming");
            reveal_strlit("4");
            reveal_strlit("winappdatalocallow");
            reveal_strlit("12");
            reveal_strlit("winsavedgames");
            reveal_strlit("9");
            reveal_strlit("windowshome");
            reveal_strlit("18");
            reveal_strlit("machome");
            reveal_strlit("6");
            reveal_strlit("macappsupport");
            reveal_strlit("7");
            reveal_strlit("macdocuments");
            reveal_strlit("8");
            reveal_strlit("linuxhome");
            reveal_strlit("14");
            reveal_strlit("linuxxdgdatahome");
            reveal_strlit("15");
            reveal_strlit("linuxxdgconfighome");
            reveal_strlit("16");
            reveal_strlit("steamuserbasestorage");
            reveal_strlit("5");
            reveal_strlit("winprogramdata");
            reveal_strlit("10");
            reveal_strlit("maccaches");
            reveal_strlit("13");
            assert(ascii_lowercase("AndroidSteamPackageRoot"@) =~= "androidsteampackageroot"@);
        }
        RootType::WindowsHome => {
            reveal_strlit("WindowsHome");
            reveal_strlit("windowshome");
            reveal_strlit("app install directory");
            reveal_strlit("gameinstall");
            assert("gameinstall"@[0] != "windowshome"@[0]);
            reveal_strlit("1");
            reveal_strlit("steamclouddocuments");
            reveal_strlit("11");
            reveal_strlit("0");
            reveal_strlit("winmydocuments");
            reveal_strlit("2");
            reveal_strlit("winappdatalocal");
            reveal_strlit("3");
            reveal_strlit("winappdataroaming");
            reveal_strlit("4");
            reveal_strlit("winappdatalocallow");
            reveal_strlit("12");
            reveal_strlit("winsavedgames");
            reveal_strlit("9");
            assert(ascii_lowercase("WindowsHome"@) =~= "windowshome"@);
        }
    }
}

/// Every root is read back from its number written in decimal.
pub proof fn lemma_root_number_read_back(r: RootType)
    ensures
        root_of_lowercase_type_name(crate::text::decimal(root_code(r) as nat)) == Some(r),
{
    match r {
        RootType::DefaultApi => {
            reveal_strlit("0");
            reveal_strlit("app install directory");
            reveal_strlit("gameinstall");
            reveal_strlit("1");
            assert("1"@[0] != "0"@[0]);
            reveal_strlit("steamclouddocuments");
            reveal_strlit("11");
            assert(crate::text::decimal(0) =~= "0"@);
        }
        RootType::GameInstall => {
            reveal_strlit("1");
            reveal_strlit("app install directory");
            reveal_strlit("gameinstall");
            assert(crate::text::decimal(1) =~= "1"@);
        }
        RootType::WinMyDocuments => {
            reveal_strlit("2");
            reveal_strlit("app install directory");
            reveal_strlit("gameinstall");
            reveal_strlit("1");
            assert("1"@[0] != "2"@[0]);
            reveal_strlit("steamclouddocuments");
            reveal_strlit("11");
            reveal_strlit("0");
            assert("0"@[0] != "2"@[0]);
            reveal_strlit("winmydocuments");
            assert(crate::text::decimal(2) =~= "2"@);
        }
        RootType::WinAppDataLocal => {
            reveal_strlit("3");
            reveal_strlit("app install directory");
            reveal_strlit("gameinstall");
            reveal_strlit("1");
            assert("1"@[0] != "3"@[0]);
            reveal_strlit("steamclouddocuments");
            reveal_strlit("11");
            reveal_strlit("0");
            assert("0"@[0] != "3"@[0]);
            reveal_strlit("winmydocuments");
            reveal_strlit("2");
            assert("2"@[0] != "3"@[0]);
            reveal_strlit("winappdatalocal");
            assert(crate::text::decimal(3) =~= "3"@);
        }
        RootType::WinAppDataRoaming => {
            reveal_strlit("4");
            reveal_strlit("app install directory");
            reveal_strlit("gameinstall");
            reveal_strlit("1");
            assert("1"@[0] != "4"@[0]);
            reveal_strlit("steamclouddocuments");
            reveal_strlit("11");
            reveal_strlit("0");
            assert("0"@[0] != "4"@[0]);
            reveal_strlit("winmydocuments");
            reveal_strlit("2");
            assert("2"@[0] != "4"@[0]);
            reveal_strlit("winappdatalocal");
            reveal_strlit("3");
            assert("3"@[0] != "4"@[0]);
            reveal_strlit("winappdataroaming");
            assert(crate::text::decimal(4) =~= "4"@);
        }
        RootType::SteamUserBaseStorage => {
            reveal_strlit("5");
            reveal_strlit("app install directory");
            reveal_strlit("gameinstall");
            reveal_strlit("1");
            assert("1"@[0] != "5"@[0]);
            reveal_strlit("steamclouddocuments");
            reveal_strlit("11");
            reveal_strlit("0");
            assert("0"@[0] != "5"@[0]);
            reveal_strlit("winmydocuments");
            reveal_strlit("2");
            assert("2"@[0] != "5"@[0]);
            reveal_strlit("winappdatalocal");
            reveal_strlit("3");
            assert("3"@[0] != "5"@[0]);
            reveal_strlit("winappdataroaming");
            reveal_strlit("4");
            assert("4"@[0] != "5"@[0]);
            reveal_strlit("winappdatalocallow");
            reveal_strlit("12");
            reveal_strlit("winsavedgames");
            reveal_strlit("9");
            assert("9"@[0] != "5"@[0]);
            reveal_strlit("windowshome");
            reveal_strlit("18");
            reveal_strlit("machome");
            reveal_strlit("6");
            assert("6"@[0] != "5"@[0]);
            reveal_strlit("macappsupport");
            reveal_strlit("7");
            assert("7"@[0] != "5"@[0]);
            reveal_strlit("macdocuments");
            reveal_strlit("8");
            assert("8"@[0] != "5"@[0]);
            reveal_strlit("linuxhome");
            reveal_strlit("14");
            reveal_strlit("linuxxdgdatahome");
            reveal_strlit("15");
            reveal_strlit("linuxxdgconfighome");
            reveal_strlit("16");
            reveal_strlit("steamuserbasestorage");
            assert(crate::text::decimal(5) =~= "5"@);
        }
        RootType::MacHome => {
            reveal_strlit("6");
            reveal_strlit("app install directory");
            reveal_strlit("gameinstall");
            reveal_strlit("1");
            assert("1"@[0] != "6"@[0]);
            reveal_strlit("steamclouddocuments");
            reveal_strlit("11");
            reveal_strlit("0");
            assert("0"@[0] != "6"@[0]);
            reveal_strlit("winmydocuments");
            reveal_strlit("2");
            assert("2"@[0] != "6"@[0]);
            reveal_strlit("winappdatalocal");
            reveal_strlit("3");
            assert("3"@[0] != "6"@[0]);
            reveal_strlit("winappdataroaming");
            reveal_strlit("4");
            assert("4"@[0] != "6"@[0]);
            reveal_strlit("winappdatalocallow");
            reveal_strlit("12");
            reveal_strlit("winsavedgames");
            reveal_strlit("9");
            assert("9"@[0] != "6"@[0]);
            reveal_strlit("windowshome");
            reveal_strlit("18");
            reveal_strlit("machome");
            assert(crate::text::decimal(6) =~= "6"@);
        }
        RootType::MacAppSupport => {
            reveal_strlit("7");
            reveal_strlit("app install directory");
            reveal_strlit("gameinstall");
            reveal_strlit("1");
            assert("1"@[0] != "7"@[0]);
            reveal_strlit("steamclouddocuments");
            reveal_strlit("11");
            reveal_strlit("0");
            assert("0"@[0] != "7"@[0]);
            reveal_strlit("winmydocuments");
            reveal_strlit("2");
            assert("2"@[0] != "7"@[0]);
            reveal_strlit("winappdatalocal");
            reveal_strlit("3");
            assert("3"@[0] != "7"@[0]);
            reveal_strlit("winappdataroaming");
            reveal_strlit("4");
            assert("4"@[0] != "7"@[0]);
            reveal_strlit("winappdatalocallow");
            reveal_strlit("12");
            reveal_strlit("winsavedgames");
            reveal_strlit("9");
            assert("9"@[0] != "7"@[0]);
            reveal_strlit("windowshome");
            reveal_strlit("18");
            reveal_strlit("machome");
            reveal_strlit("6");
            assert("6"@[0] != "7"@[0]);
            reveal_strlit("macappsupport");
            assert(crate::text::decimal(7) =~= "7"@);
        }
        RootType::MacDocuments => {
            reveal_strlit("8");
            reveal_strlit("app install directory");
            reveal_strlit("gameinstall");
            reveal_strlit("1");
            assert("1"@[0] != "8"@[0]);
            reveal_strlit("steamclouddocuments");
            reveal_strlit("11");
            reveal_strlit("0");
            assert("0"@[0] != "8"@[0]);
            reveal_strlit("winmydocuments");
            reveal_strlit("2");
            assert("2"@[0] != "8"@[0]);
            reveal_strlit("winappdatalocal");
            reveal_strlit("3");
            assert("3"@[0] != "8"@[0]);
            reveal_strlit("winappdataroaming");
            reveal_strlit("4");
            assert("4"@[0] != "8"@[0]);
            reveal_strlit("winappdatalocallow");
            reveal_strlit("12");
            reveal_strlit("winsavedgames");
            reveal_strlit("9");
            assert("9"@[0] != "8"@[0]);
            reveal_strlit("windowshome");
            reveal_strlit("18");
            reveal_strlit("machome");
            reveal_strlit("6");
            assert("6"@[0] != "8"@[0]);
            reveal_strlit("macappsupport");
            reveal_strlit("7");
            assert("7"@[0] != "8"@[0]);
            reveal_strlit("macdocuments");
            assert(crate::text::decimal(8) =~= "8"@);
        }
        RootType::WinSavedGames => {
            reveal_strlit("9");
            reveal_strlit("app install directory");
            reveal_strlit("gameinstall");
            reveal_strlit("1");
            assert("1"@[0] != "9"@[0]);
            reveal_strlit("steamclouddocuments");
            reveal_strlit("11");
            reveal_strlit("0");
            assert("0"@[0] != "9"@[0]);
            reveal_strlit("winmydocuments");
            reveal_strlit("2");
            assert("2"@[0] != "9"@[0]);
            reveal_strlit("winappdatalocal");
            reveal_strlit("3");
            assert("3"@[0] != "9"@[0]);
            reveal_strlit("winappdataroaming");
            reveal_strlit("4");
            assert("4"@[0] != "9"@[0]);
            reveal_strlit("winappdatalocallow");
            reveal_strlit("12");
            reveal_strlit("winsavedgames");
            assert(crate::text::decimal(9) =~= "9"@);
        }
        RootType::WinProgramData => {
            reveal_strlit("10");
            reveal_strlit("app install directory");
            reveal_strlit("gameinstall");
            reveal_strlit("1");
            reveal_strlit("steamclouddocuments");
            reveal_strlit("11");
            assert("11"@[1] != "10"@[1]);
            reveal_strlit("0");
            reveal_strlit("winmydocuments");
            reveal_strlit("2");
            reveal_strlit("winappdatalocal");
            reveal_strlit("3");
            reveal_strlit("winappdataroaming");
            reveal_strlit("4");
            reveal_strlit("winappdatalocallow");
            reveal_strlit("12");
            assert("12"@[1] != "10"@[1]);
            reveal_strlit("winsavedgames");
            reveal_strlit("9");
            reveal_strlit("windowshome");
            reveal_strlit("18");
            assert("18"@[1] != "10"@[1]);
            reveal_strlit("machome");
            reveal_strlit("6");
            reveal_strlit("macappsupport");
            reveal_strlit("7");
            reveal_strlit("macdocuments");
            reveal_strlit("8");
            reveal_strlit("linuxhome");
            reveal_strlit("14");
            assert("14"@[1] != "10"@[1]);
            reveal_strlit("linuxxdgdatahome");
            reveal_strlit("15");
            assert("15"@[1] != "10"@[1]);
            reveal_strlit("linuxxdgconfighome");
            reveal_strlit("16");
            assert("16"@[1] != "10"@[1]);
            reveal_strlit("steamuserbasestorage");
            reveal_strlit("5");
            reveal_strlit("winprogramdata");
            assert(crate::text::decimal(10) =~= "10"@) by { assert(crate::text::decimal(1) =~= seq!['1']); }
        }
        RootType::SteamCloudDocuments => {
            reveal_strlit("11");
            reveal_strlit("app install directory");
            reveal_strlit("gameinstall");
            reveal_strlit("1");
            reveal_strlit("steamclouddocuments");
            assert(crate::text::decimal(11) =~= "11"@) by { assert(crate::text::decimal(1) =~= seq!['1']); }
        }
        RootType::WinAppDataLocalLow => {
            reveal_strlit("12");
            reveal_strlit("app install directory");
            reveal_strlit("gameinstall");
            reveal_strlit("1");
            reveal_strlit("steamclouddocuments");
            reveal_strlit("11");
            assert("11"@[1] != "12"@[1]);
            reveal_strlit("0");
            reveal_strlit("winmydocuments");
            reveal_strlit("2");
            reveal_strlit("winappdatalocal");
            reveal_strlit("3");
            reveal_strlit("winappdataroaming");
            reveal_strlit("4");
            reveal_strlit("winappdatalocallow");
            assert(crate::text::decimal(12) =~= "12"@) by { assert(crate::text::decimal(1) =~= seq!['1']); }
        }
        RootType::MacCaches => {
            reveal_strlit("13");
            reveal_strlit("app install directory");
            reveal_strlit("gameinstall");
            reveal_strlit("1");
            reveal_strlit("steamclouddocuments");
            reveal_strlit("11");
            assert("11"@[1] != "13"@[1]);
            reveal_strlit("0");
            reveal_strlit("winmydocuments");
            reveal_strlit("2");
            reveal_strlit("winappdatalocal");
            reveal_strlit("3");
            reveal_strlit("winappdataroaming");
            reveal_strlit("4");
            reveal_strlit("winappdatalocallow");
            reveal_strlit("12");
            assert("12"@[1] != "13"@[1]);
            reveal_strlit("winsavedgames");
            reveal_strlit("9");
            reveal_strlit("windowshome");
            reveal_strlit("18");
            assert("18"@[1] != "13"@[1]);
            reveal_strlit("machome");
            reveal_strlit("6");
            reveal_strlit("macappsupport");
            reveal_strlit("7");
            reveal_strlit("macdocuments");
            reveal_strlit("8");
            reveal_strlit("linuxhome");
            reveal_strlit("14");
            assert("14"@[1] != "13"@[1]);
            reveal_strlit("linuxxdgdatahome");
            reveal_strlit("15");
            assert("15"@[1] != "13"@[1]);
            reveal_strlit("linuxxdgconfighome");
            reveal_strlit("16");
            assert("16"@[1] != "13"@[1]);
            reveal_strlit("steamuserbasestorage");
            reveal_strlit("5");
            reveal_strlit("winprogramdata");
            reveal_strlit("10");
            assert("10"@[1] != "13"@[1]);
            reveal_strlit("maccaches");
            assert(crate::text::decimal(13) =~= "13"@) by { assert(crate::text::decimal(1) =~= seq!['1']); }
        }
        RootType::LinuxHome => {
            reveal_strlit("14");
            reveal_strlit("app install directory");
            reveal_strlit("gameinstall");
            reveal_strlit("1");
            reveal_strlit("steamclouddocuments");
            reveal_strlit("11");
            assert("11"@[1] != "14"@[1]);
            reveal_strlit("0");
            reveal_strlit("winmydocuments");
            reveal_strlit("2");
            reveal_strlit("winappdatalocal");
            reveal_strlit("3");
            reveal_strlit("winappdataroaming");
            reveal_strlit("4");
            reveal_strlit("winappdatalocallow");
            reveal_strlit("12");
            assert("12"@[1] != "14"@[1]);
            reveal_strlit("winsavedgames");
            reveal_strlit("9");
            reveal_strlit("windowshome");
            reveal_strlit("18");
            assert("18"@[1] != "14"@[1]);
            reveal_strlit("machome");
            reveal_strlit("6");
            reveal_strlit("macappsupport");
            reveal_strlit("7");
            reveal_strlit("macdocuments");
            reveal_strlit("8");
            reveal_strlit("linuxhome");
            assert(crate::text::decimal(14) =~= "14"@) by { assert(crate::text::decimal(1) =~= seq!['1']); }
        }
        RootType::LinuxXdgDataHome => {
            reveal_strlit("15");
            reveal_strlit("app install directory");
            reveal_strlit("gameinstall");
            reveal_strlit("1");
            reveal_strlit("steamclouddocuments");
            reveal_strlit("11");
            assert("11"@[1] != "15"@[1]);
            reveal_strlit("0");
            reveal_strlit("winmydocuments");
            reveal_strlit("2");
            reveal_strlit("winappdatalocal");
            reveal_strlit("3");
            reveal_strlit("winappdataroaming");
            reveal_strlit("4");
            reveal_strlit("winappdatalocallow");
            reveal_strlit("12");
            assert("12"@[1] != "15"@[1]);
            reveal_strlit("winsavedgames");
            reveal_strlit("9");
            reveal_strlit("windowshome");
            reveal_strlit("18");
            assert("18"@[1] != "15"@[1]);
            reveal_strlit("machome");
            reveal_strlit("6");
            reveal_strlit("macappsupport");
            reveal_strlit("7");
            reveal_strlit("macdocuments");
            reveal_strlit("8");
            reveal_strlit("linuxhome");
            reveal_strlit("14");
            assert("14"@[1] != "15"@[1]);
            reveal_strlit("linuxxdgdatahome");
            assert(crate::text::decimal(15) =~= "15"@) by { assert(crate::text::decimal(1) =~= seq!['1']); }
        }
        RootType::LinuxXdgConfigHome => {
            reveal_strlit("16");
            reveal_strlit("app install directory");
            reveal_strlit("gameinstall");
            reveal_strlit("1");
            reveal_strlit("steamclouddocuments");
            reveal_strlit("11");
            assert("11"@[1] != "16"@[1]);
            reveal_strlit("0");
            reveal_strlit("winmydocuments");
            reveal_strlit("2");
            reveal_strlit("winappdatalocal");
            reveal_strlit("3");
            reveal_strlit("winappdataroaming");
            reveal_strlit("4");
            reveal_strlit("winappdatalocallow");
            reveal_strlit("12");
            assert("12"@[1] != "16"@[1]);
            reveal_strlit("winsavedgames");
            reveal_strlit("9");
            reveal_strlit("windowshome");
            reveal_strlit("18");
            assert("18"@[1] != "16"@[1]);
            reveal_strlit("machome");
            reveal_strlit("6");
            reveal_strlit("macappsupport");
            reveal_strlit("7");
            reveal_strlit("macdocuments");
            reveal_strlit("8");
            reveal_strlit("linuxhome");
            reveal_strlit("14");
            assert("14"@[1] != "16"@[1]);
            reveal_strlit("linuxxdgdatahome");
            reveal_strlit("15");
            assert("15"@[1] != "16"@[1]);
            reveal_strlit("linuxxdgconfighome");
            assert(crate::text::decimal(16) =~= "16"@) by { assert(crate::text::decimal(1) =~= seq!['1']); }
        }
        RootType::AndroidSteamPackageRoot => {
            reveal_strlit("17");
            reveal_strlit("app install directory");
            reveal_strlit("gameinstall");
            reveal_strlit("1");
            reveal_strlit("steamclouddocuments");
            reveal_strlit("11");
            assert("11"@[1] != "17"@[1]);
            reveal_strlit("0");
            reveal_strlit("winmydocuments");
            reveal_strlit("2");
            reveal_strlit("winappdatalocal");
            reveal_strlit("3");
            reveal_strlit("winappdataroaming");
            reveal_strlit("4");
            reveal_strlit("winappdatalocallow");
            reveal_strlit("12");
            assert("12"@[1] != "17"@[1]);
            reveal_strlit("winsavedgames");
            reveal_strlit("9");
            reveal_strlit("windowshome");
            reveal_strlit("18");
            assert("18"@[1] != "17"@[1]);
            reveal_strlit("machome");
            reveal_strlit("6");
            reveal_strlit("macappsupport");
            reveal_strlit("7");
            reveal_strlit("macdocuments");
            reveal_strlit("8");
            reveal_strlit("linuxhome");
            reveal_strlit("14");
            assert("14"@[1] != "17"@[1]);
            reveal_strlit("linuxxdgdatahome");
            reveal_strlit("15");
            assert("15"@[1] != "17"@[1]);
            reveal_strlit("linuxxdgconfighome");
            reveal_strlit("16");
            assert("16"@[1] != "17"@[1]);
            reveal_strlit("steamuserbasestorage");
            reveal_strlit("5");
            reveal_strlit("winprogramdata");
            reveal_strlit("10");
            assert("10"@[1] != "17"@[1]);
            reveal_strlit("maccaches");
            reveal_strlit("13");
            assert("13"@[1] != "17"@[1]);
            reveal_strlit("androidsteampackageroot");
            assert(crate::text::decimal(17) =~= "17"@) by { assert(crate::text::decimal(1) =~= seq!['1']); }
        }
        RootType::WindowsHome => {
            reveal_strlit("18");
            reveal_strlit("app install directory");
            reveal_strlit("gameinstall");
            reveal_strlit("1");
            reveal_strlit("steamclouddocuments");
            reveal_strlit("11");
            assert("11"@[1] != "18"@[1]);
            reveal_strlit("0");
            reveal_strlit("winmydocuments");
            reveal_strlit("2");
            reveal_strlit("winappdatalocal");
            reveal_strlit("3");
            reveal_strlit("winappdataroaming");
            reveal_strlit("4");
            reveal_strlit("winappdatalocallow");
            reveal_strlit("12");
            assert("12"@[1] != "18"@[1]);
            reveal_strlit("winsavedgames");
            reveal_strlit("9");
            reveal_strlit("windowshome");
            assert(crate::text::decimal(18) =~= "18"@) by { assert(crate::text::decimal(1) =~= seq!['1']); }
        }
    }
}

/// Root numbers and roots correspond one to one: the number of a root leads
/// back to it, and a number that leads to a root is that root's number.
pub proof fn lemma_root_code_read_back(r: RootType, v: u32)
    ensures
        root_for_code(root_code(r)) == Some(r),
        root_for_code(v) == Some(r) ==> root_code(r) == v,
        root_for_code(v) is None <==> v > 18,
{
}


/// `name (n)`: a root name followed by a root number in brackets.
pub open spec fn named_root_description(name: Seq<char>, root: u32) -> Seq<char> {
    name + " ("@ + crate::text::decimal(root as nat) + ")"@
}

/// Appends ` (n)` to a root name.
fn describe_root_named(name: &str, root: u32) -> (r: String)
    ensures
        r@ == named_root_description(name@, root),
{
    let mut s = String::from_str(name);
    s.append(" (");
    crate::text::append_decimal(&mut s, root as u64);
    s.append(")");
    s
}

/// The text that describes root number `root`: its name, then the number in
/// brackets, such as `WinMyDocuments (2)`.
pub fn get_root_description(root: u32) -> (r: String)
    ensures
        r@ == named_root_description(root_type_name(root), root),
{
    describe_root_named(get_root_type_name(root), root)
}

/// What a root description of the form `CDP:<url>|<folder>` holds: the url
/// (none when empty) and the folder. A description without the `CDP:` prefix
/// is all folder; without a second piece the folder is the whole description.
pub open spec fn cdp_root_parts(d: Seq<char>) -> (Option<Seq<char>>, Seq<char>) {
    if crate::text::starts_with(d, "CDP:"@) {
        let pieces = crate::text::split_on(d.subrange(4, d.len() as int), '|');
        (
            if pieces[0].len() > 0 { Some(pieces[0]) } else { None },
            if pieces.len() >= 2 { pieces[1] } else { d },
        )
    } else {
        (None, d)
    }
}

/// Splits a root description of the form `CDP:<url>|<folder>`.
pub fn parse_cdp_root_description<'a>(root_description: &'a str) -> (r: (Option<&'a str>, &'a str))
    ensures
        (match r.0 { Some(u) => Some(u@), None => None::<Seq<char>> }, r.1@) == cdp_root_parts(
            root_description@,
        ),
{
    let d = root_description;
    if !crate::text::str_starts_with(d, "CDP:") {
        return (None, d);
    }
    proof {
        reveal_strlit("CDP:");
    }
    let n = d.unicode_len();
    let content = d.substring_char(4, n);
    let v = crate::text::str_chars(content);
    let m = v.len();
    let p = crate::text::find_char_from(v.as_slice(), 0, '|');
    proof {
        crate::text::lemma_split_at_first(v@, '|', p as int);
    }
    let url = if p > 0 {
        Some(content.substring_char(0, p))
    } else {
        None
    };
    if p < m {
        let q = crate::text::find_char_from(v.as_slice(), p + 1, '|');
        proof {
            let rest = v@.subrange(p + 1, m as int);
            assert forall|k: int| 0 <= k < q - (p + 1) implies rest[k] != '|' by {
                assert(rest[k] == v@[p + 1 + k]);
            }
            crate::text::lemma_split_at_first(rest, '|', q - (p + 1));
            crate::text::lemma_split_len(rest.subrange(q - (p + 1) + 1, rest.len() as int), '|');
            assert(rest.subrange(0, q - (p + 1)) =~= v@.subrange(p + 1, q as int));
        }
        let folder = content.substring_char(p + 1, q);
        (url, folder)
    } else {
        (url, d)
    }
}


/// Whether an operating-system name (already lower case) designates the
/// platform `current` (`windows`, `macos` or `linux`): by the substrings
/// `windows`/`win`, `macos`/`mac`/`osx` and `linux`.
pub open spec fn os_matches(lower: Seq<char>, current: Seq<char>) -> bool {
    if current == "windows"@ {
        crate::text::contains_text(lower, "windows"@) || crate::text::contains_text(lower, "win"@)
    } else if current == "macos"@ {
        crate::text::contains_text(lower, "macos"@) || crate::text::contains_text(lower, "mac"@)
            || crate::text::contains_text(lower, "osx"@)
    } else if current == "linux"@ {
        crate::text::contains_text(lower, "linux"@)
    } else {
        false
    }
}

/// Whether the operating-system name `os` designates the platform `current`,
/// ignoring case.
pub fn os_name_matches(os: &str, current_platform: &str) -> (r: bool)
    ensures
        r == os_matches(crate::text::unicode_lowercase(os@), current_platform@),
{
    let lower = crate::text::to_lowercase(os);
    let l = lower.as_str();
    if crate::text::str_eq(current_platform, "windows") {
        crate::text::str_contains(l, "windows") || crate::text::str_contains(l, "win")
    } else if crate::text::str_eq(current_platform, "macos") {
        crate::text::str_contains(l, "macos") || crate::text::str_contains(l, "mac")
            || crate::text::str_contains(l, "osx")
    } else if crate::text::str_eq(current_platform, "linux") {
        crate::text::str_contains(l, "linux")
    } else {
        false
    }
}

/// Whether a platform list admits the platform `current`: an empty list admits
/// every platform, otherwise one of its names must designate it.
pub open spec fn platforms_admit(platforms: Seq<Seq<char>>, current: Seq<char>) -> bool {
    platforms.len() == 0 || exists|i: int|
        0 <= i < platforms.len() && os_matches(
            crate::text::unicode_lowercase(#[trigger] platforms[i]),
            current,
        )
}

/// Whether the platforms of a save-file rule admit the running platform
/// (`current_platform`: `windows`, `macos` or `linux`).
pub fn platform_matches_current(platforms: &[String], current_platform: &str) -> (r: bool)
    ensures
        r == platforms_admit(crate::config::strings_view(platforms@), current_platform@),
{
    let ghost pv = crate::config::strings_view(platforms@);
    if platforms.len() == 0 {
        return true;
    }
    let mut i: usize = 0;
    while i < platforms.len()
        invariant
            pv == crate::config::strings_view(platforms@),
            i <= platforms@.len(),
            forall|k: int|
                0 <= k < i ==> !os_matches(
                    crate::text::unicode_lowercase(#[trigger] pv[k]),
                    current_platform@,
                ),
        decreases platforms.len() - i,
    {
        if os_name_matches(platforms[i].as_str(), current_platform) {
            assert(pv[i as int] == platforms@[i as int]@);
            return true;
        }
        assert(pv[i as int] == platforms@[i as int]@);
        i = i + 1;
    }
    false
}

/// A save-file rule of a game's cloud configuration, with its root read.
#[derive(Debug, Clone)]
pub struct SaveFileConfig {
    /// The root as the configuration names it (such as `WinMyDocuments`).
    pub root: String,
    /// The root it designates, if the name is known.
    pub root_type: Option<RootType>,
    /// The directory below the root.
    pub path: String,
    /// The file-name pattern.
    pub pattern: String,
    /// The platforms the rule is for (empty: all).
    pub platforms: Vec<String>,
    /// Whether subdirectories are searched.
    pub recursive: bool,
}

/// One path rewrite of a root override.
#[derive(Debug, Clone)]
pub struct PathTransformConfig {
    pub find: String,
    pub replace: String,
}

/// A root override: on the listed operating systems, files of
/// `original_root` live under `new_root` instead.
#[derive(Debug, Clone)]
pub struct RootOverrideConfig {
    pub original_root: String,
    pub oslist: Vec<String>,
    pub new_root: String,
    pub add_path: String,
    pub path_transforms: Vec<PathTransformConfig>,
}

/// Mathematical value of a [`SaveFileConfig`].
pub struct SaveFileConfigModel {
    pub root: Seq<char>,
    pub root_type: Option<RootType>,
    pub path: Seq<char>,
    pub pattern: Seq<char>,
    pub platforms: Seq<Seq<char>>,
    pub recursive: bool,
}

/// Mathematical value of a [`RootOverrideConfig`].
pub struct RootOverrideConfigModel {
    pub original_root: Seq<char>,
    pub oslist: Seq<Seq<char>>,
    pub new_root: Seq<char>,
    pub add_path: Seq<char>,
    pub path_transforms: Seq<crate::config::PathTransformModel>,
}

impl View for SaveFileConfig {
    type V = SaveFileConfigModel;

    open spec fn view(&self) -> SaveFileConfigModel {
        SaveFileConfigModel {
            root: self.root@,
            root_type: self.root_type,
            path: self.path@,
            pattern: self.pattern@,
            platforms: crate::config::strings_view(self.platforms@),
            recursive: self.recursive,
        }
    }
}

impl View for PathTransformConfig {
    type V = crate::config::PathTransformModel;

    open spec fn view(&self) -> crate::config::PathTransformModel {
        crate::config::PathTransformModel { find: self.find@, replace: self.replace@ }
    }
}

/// The models of a list of path rewrites.
pub open spec fn transforms_view(v: Seq<PathTransformConfig>) -> Seq<crate::config::PathTransformModel> {
    v.map_values(|t: PathTransformConfig| t@)
}

impl View for RootOverrideConfig {
    type V = RootOverrideConfigModel;

    open spec fn view(&self) -> RootOverrideConfigModel {
        RootOverrideConfigModel {
            original_root: self.original_root@,
            oslist: crate::config::strings_view(self.oslist@),
            new_root: self.new_root@,
            add_path: self.add_path@,
            path_transforms: transforms_view(self.path_transforms@),
        }
    }
}

impl Default for SaveFileConfig {
    fn default() -> (r: Self)
        ensures
            r.root@.len() == 0,
            r.root_type is None,
            r.path@.len() == 0,
            r.pattern@.len() == 0,
            r.platforms@.len() == 0,
            !r.recursive,
    {
        SaveFileConfig {
            root: String::new(),
            root_type: None,
            path: String::new(),
            pattern: String::new(),
            platforms: Vec::new(),
            recursive: false,
        }
    }
}

impl Default for PathTransformConfig {
    fn default() -> (r: Self)
        ensures
            r.find@.len() == 0,
            r.replace@.len() == 0,
    {
        PathTransformConfig { find: String::new(), replace: String::new() }
    }
}

impl Default for RootOverrideConfig {
    fn default() -> (r: Self)
        ensures
            r.original_root@.len() == 0,
            r.oslist@.len() == 0,
            r.new_root@.len() == 0,
            r.add_path@.len() == 0,
            r.path_transforms@.len() == 0,
    {
        RootOverrideConfig {
            original_root: String::new(),
            oslist: Vec::new(),
            new_root: String::new(),
            add_path: String::new(),
            path_transforms: Vec::new(),
        }
    }
}

/// A copy of a list of path rewrites.
pub fn copy_transforms(v: &[PathTransformConfig]) -> (r: Vec<PathTransformConfig>)
    ensures
        transforms_view(r@) == transforms_view(v@),
{
    let mut out: Vec<PathTransformConfig> = Vec::new();
    let mut i: usize = 0;
    while i < v.len()
        invariant
            i <= v@.len(),
            out@.len() == i,
            forall|k: int| 0 <= k < i ==> (#[trigger] out@[k])@ == v@[k]@,
        decreases v.len() - i,
    {
        let t = PathTransformConfig { find: v[i].find.clone(), replace: v[i].replace.clone() };
        out.push(t);
        i = i + 1;
    }
    assert(transforms_view(out@) =~= transforms_view(v@));
    out
}

/// Whether a root override applies to the root named `lower_root` (lower case)
/// on platform `current`: its original root names it, ignoring case, and one of
/// its operating systems designates the platform.
pub open spec fn override_applies(
    o: RootOverrideConfigModel,
    lower_root: Seq<char>,
    current: Seq<char>,
) -> bool {
    &&& crate::text::unicode_lowercase(o.original_root) == lower_root
    &&& exists|j: int|
        0 <= j < o.oslist.len() && os_matches(
            crate::text::unicode_lowercase(#[trigger] o.oslist[j]),
            current,
        )
}

/// The position of the first override, from position `k` on, that applies to
/// the root named `lower_root` (lower case) on platform `current`.
pub open spec fn first_override_from(
    ov: Seq<RootOverrideConfigModel>,
    lower_root: Seq<char>,
    current: Seq<char>,
    k: int,
) -> Option<int>
    decreases ov.len() - k,
{
    if k < 0 || k >= ov.len() {
        None
    } else if override_applies(ov[k], lower_root, current) {
        Some(k)
    } else {
        first_override_from(ov, lower_root, current, k + 1)
    }
}

/// The models of a list of root overrides.
pub open spec fn override_configs_view(v: Seq<RootOverrideConfig>) -> Seq<RootOverrideConfigModel> {
    v.map_values(|o: RootOverrideConfig| o@)
}

/// The override that `apply_root_override` picks: the first one that applies.
pub open spec fn chosen_override(
    ov: Seq<RootOverrideConfigModel>,
    root_name: Seq<char>,
    current: Seq<char>,
) -> Option<RootOverrideConfigModel> {
    match first_override_from(ov, crate::text::unicode_lowercase(root_name), current, 0) {
        Some(i) => Some(ov[i]),
        None => None,
    }
}

proof fn lemma_first_override_skip(
    ov: Seq<RootOverrideConfigModel>,
    lower_root: Seq<char>,
    current: Seq<char>,
    k: int,
    i: int,
)
    requires
        0 <= k <= i <= ov.len(),
        forall|m: int| k <= m < i ==> !override_applies(#[trigger] ov[m], lower_root, current),
    ensures
        first_override_from(ov, lower_root, current, k) == first_override_from(
            ov,
            lower_root,
            current,
            i,
        ),
    decreases i - k,
{
    if k < i {
        lemma_first_override_skip(ov, lower_root, current, k + 1, i);
    }
}

/// The first root override that applies to the root named `root_name` on the
/// running platform: its new root name, its added path and its path rewrites.
pub fn apply_root_override(
    root_name: &str,
    overrides: &[RootOverrideConfig],
    current_platform: &str,
) -> (r: Option<(String, String, Vec<PathTransformConfig>)>)
    ensures
        match chosen_override(override_configs_view(overrides@), root_name@, current_platform@) {
            None => r is None,
            Some(o) => r matches Some(t) && t.0@ == o.new_root && t.1@ == o.add_path
                && transforms_view(t.2@) == o.path_transforms,
        },
{
    let ghost ov = override_configs_view(overrides@);
    let ghost lr = crate::text::unicode_lowercase(root_name@);
    let lower_root = crate::text::to_lowercase(root_name);
    let mut i: usize = 0;
    while i < overrides.len()
        invariant
            ov == override_configs_view(overrides@),
            lr == crate::text::unicode_lowercase(root_name@),
            lower_root@ == lr,
            i <= overrides@.len(),
            first_override_from(ov, lr, current_platform@, 0) == first_override_from(
                ov,
                lr,
                current_platform@,
                i as int,
            ),
        decreases overrides.len() - i,
    {
        let o = &overrides[i];
        assert(ov[i as int] == o@);
        let lower_orig = crate::text::to_lowercase(o.original_root.as_str());
        if crate::text::str_eq(lower_orig.as_str(), lower_root.as_str()) {
            if platform_listed(o.oslist.as_slice(), current_platform) {
                let t = copy_transforms(o.path_transforms.as_slice());
                proof {
                    let osl = crate::config::strings_view(o.oslist@);
                    assert(ov[i as int].oslist == osl);
                    let j = choose|j: int|
                        0 <= j < o.oslist@.len() && os_matches(
                            crate::text::unicode_lowercase(#[trigger] osl[j]),
                            current_platform@,
                        );
                    assert(os_matches(crate::text::unicode_lowercase(ov[i as int].oslist[j]), current_platform@));
                    assert(override_applies(ov[i as int], lr, current_platform@));
                }
                return Some((o.new_root.clone(), o.add_path.clone(), t));
            }
        }
        proof {
            lemma_first_override_skip(ov, lr, current_platform@, i as int, i + 1);
        }
        i = i + 1;
    }
    None
}

/// Whether one of the operating-system names designates the platform.
fn platform_listed(oslist: &[String], current_platform: &str) -> (r: bool)
    ensures
        r == exists|j: int|
            0 <= j < oslist@.len() && os_matches(
                crate::text::unicode_lowercase(#[trigger] crate::config::strings_view(oslist@)[j]),
                current_platform@,
            ),
{
    let ghost pv = crate::config::strings_view(oslist@);
    let mut i: usize = 0;
    while i < oslist.len()
        invariant
            pv == crate::config::strings_view(oslist@),
            i <= oslist@.len(),
            forall|k: int|
                0 <= k < i ==> !os_matches(
                    crate::text::unicode_lowercase(#[trigger] pv[k]),
                    current_platform@,
                ),
        decreases oslist.len() - i,
    {
        if os_name_matches(oslist[i].as_str(), current_platform) {
            assert(pv[i as int] == oslist@[i as int]@);
            return true;
        }
        assert(pv[i as int] == oslist@[i as int]@);
        i = i + 1;
    }
    false
}

/// Whether a file name matches a save-file pattern: `*` and `*.*` match
/// everything, `*.ext` matches names ending in `.ext`, `prefix*` matches names
/// that begin with `prefix`, and any other pattern matches only itself.
pub open spec fn pattern_admits(filename: Seq<char>, pattern: Seq<char>) -> bool {
    if pattern == "*"@ || pattern == "*.*"@ {
        true
    } else if crate::text::starts_with(pattern, "*."@) {
        crate::text::ends_with(filename, pattern.subrange(1, pattern.len() as int))
    } else if crate::text::ends_with(pattern, "*"@) {
        crate::text::starts_with(filename, pattern.drop_last())
    } else {
        filename == pattern
    }
}

/// Whether a file name matches a save-file pattern (see [`pattern_admits`]).
pub fn pattern_matches(filename: &str, pattern: &str) -> (r: bool)
    ensures
        r == pattern_admits(filename@, pattern@),
{
    if crate::text::str_eq(pattern, "*") || crate::text::str_eq(pattern, "*.*") {
        return true;
    }
    let n = pattern.unicode_len();
    if crate::text::str_starts_with(pattern, "*.") {
        proof {
            reveal_strlit("*.");
        }
        let ext = pattern.substring_char(1, n);
        return crate::text::str_ends_with(filename, ext);
    }
    if crate::text::str_ends_with(pattern, "*") {
        proof {
            reveal_strlit("*");
        }
        let prefix = pattern.substring_char(0, n - 1);
        assert(prefix@ =~= pattern@.drop_last());
        return crate::text::str_starts_with(filename, prefix);
    }
    crate::text::str_eq(filename, pattern)
}


/// A path after its rewrites, applied in order; a rewrite with an empty
/// `find` is passed over.
pub open spec fn apply_transforms(p: Seq<char>, ts: Seq<crate::config::PathTransformModel>) -> Seq<char>
    decreases ts.len(),
{
    if ts.len() == 0 {
        p
    } else {
        let next = if ts[0].find.len() > 0 {
            crate::text::replace_all(p, ts[0].find, ts[0].replace)
        } else {
            p
        };
        apply_transforms(next, ts.drop_first())
    }
}

/// Applies the path rewrites of a root override to a path.
pub fn transform_path(p: &str, ts: &[PathTransformConfig]) -> (r: String)
    ensures
        r@ == apply_transforms(p@, transforms_view(ts@)),
{
    let ghost tv = transforms_view(ts@);
    let mut cur = String::from_str(p);
    let mut i: usize = 0;
    assert(tv.subrange(0, tv.len() as int) =~= tv);
    while i < ts.len()
        invariant
            tv == transforms_view(ts@),
            i <= ts@.len(),
            apply_transforms(cur@, tv.subrange(i as int, tv.len() as int)) == apply_transforms(p@, tv),
        decreases ts.len() - i,
    {
        let t = &ts[i];
        assert(tv[i as int] == t@);
        assert(tv.subrange(i as int, tv.len() as int).drop_first() =~= tv.subrange(i + 1, tv.len() as int));
        if t.find.as_str().unicode_len() > 0 {
            cur = crate::text::replace_text(cur.as_str(), t.find.as_str(), t.replace.as_str());
        }
        i = i + 1;
    }
    cur
}

/// Where a cloud file is on disk, before the platform's directories are known:
/// below the base directory of a root, or below the game's install directory,
/// at the path made of `parts` joined in order.
#[derive(Debug)]
pub enum CloudPathPlan {
    Root { root: RootType, parts: Vec<String> },
    GameInstall { parts: Vec<String> },
}

/// Mathematical value of a [`CloudPathPlan`]: the root (`None` for the game's
/// install directory) and the path parts.
pub open spec fn cloud_plan_view(p: CloudPathPlan) -> (Option<RootType>, Seq<Seq<char>>) {
    match p {
        CloudPathPlan::Root { root, parts } => (Some(root), crate::config::strings_view(parts@)),
        CloudPathPlan::GameInstall { parts } => (None, crate::config::strings_view(parts@)),
    }
}

/// The root an override leads to: the override chosen for root `t` and the
/// root its new name designates, with that name.
pub open spec fn override_target(
    ov: Option<Seq<RootOverrideConfigModel>>,
    name: Seq<char>,
    current: Seq<char>,
) -> Option<(RootOverrideConfigModel, RootType)> {
    match ov {
        None => None,
        Some(v) => match chosen_override(v, name, current) {
            None => None,
            Some(o) => match root_of_lowercase_name(crate::text::unicode_lowercase(o.new_root)) {
                None => None,
                Some(t) => Some((o, t)),
            },
        },
    }
}

/// Where the cloud file `filename` of root number `root` lives. An unknown
/// root number means the default root. A root override that applies and names
/// a known root sends the file there: with path rewrites, to the rewritten file
/// name; otherwise below the added path, if any. Without one, files of the game
/// install root are below the game's install directory.
pub open spec fn cloud_file_plan(
    root: u32,
    filename: Seq<char>,
    ov: Option<Seq<RootOverrideConfigModel>>,
    current: Seq<char>,
) -> (Option<RootType>, Seq<Seq<char>>) {
    let rt = match root_for_code(root) {
        Some(t) => t,
        None => RootType::DefaultApi,
    };
    match override_target(ov, root_name(rt), current) {
        Some((o, t)) => (
            Some(t),
            if o.path_transforms.len() > 0 {
                seq![apply_transforms(filename, o.path_transforms)]
            } else if o.add_path.len() > 0 {
                seq![o.add_path, filename]
            } else {
                seq![filename]
            },
        ),
        None => if rt == RootType::GameInstall {
            (None, seq![filename])
        } else {
            (Some(rt), seq![filename])
        },
    }
}

/// The models of an optional list of root overrides.
pub open spec fn optional_overrides_view(ov: Option<&[RootOverrideConfig]>) -> Option<Seq<RootOverrideConfigModel>> {
    match ov {
        Some(v) => Some(override_configs_view(v@)),
        None => None,
    }
}

/// The root an override leads the root named `name` to, if one applies and
/// its new root is known.
fn find_override_target(
    name: &str,
    overrides: Option<&[RootOverrideConfig]>,
    current_platform: &str,
) -> (r: Option<(RootType, String, String, Vec<PathTransformConfig>)>)
    ensures
        match override_target(optional_overrides_view(overrides), name@, current_platform@) {
            None => r is None,
            Some((o, t)) => r matches Some(x) && x.0 == t && x.1@ == o.new_root && x.2@ == o.add_path
                && transforms_view(x.3@) == o.path_transforms,
        },
{
    match overrides {
        None => None,
        Some(v) => match apply_root_override(name, v, current_platform) {
            None => None,
            Some((new_root, add_path, transforms)) => match RootType::from_name(new_root.as_str()) {
                None => None,
                Some(t) => Some((t, new_root, add_path, transforms)),
            },
        },
    }
}

/// Where the cloud file `filename` of root number `root` lives (see
/// [`cloud_file_plan`]); `overrides` are the game's root overrides, if known.
pub fn resolve_cloud_file_path(
    root: u32,
    filename: &str,
    overrides: Option<&[RootOverrideConfig]>,
    current_platform: &str,
) -> (r: CloudPathPlan)
    ensures
        cloud_plan_view(r) == cloud_file_plan(
            root,
            filename@,
            optional_overrides_view(overrides),
            current_platform@,
        ),
{
    let rt = match RootType::from_u32(root) {
        Some(t) => t,
        None => RootType::DefaultApi,
    };
    let name = rt.to_name();
    match find_override_target(name, overrides, current_platform) {
        Some((t, _new_root, add_path, transforms)) => {
            let mut parts: Vec<String> = Vec::new();
            if transforms.len() > 0 {
                parts.push(transform_path(filename, transforms.as_slice()));
            } else if add_path.as_str().unicode_len() > 0 {
                parts.push(add_path);
                parts.push(String::from_str(filename));
            } else {
                parts.push(String::from_str(filename));
            }
            let r = CloudPathPlan::Root { root: t, parts };
            assert(crate::config::strings_view(parts@) =~= cloud_file_plan(
                root,
                filename@,
                optional_overrides_view(overrides),
                current_platform@,
            ).1);
            r
        },
        None => {
            let mut parts: Vec<String> = Vec::new();
            parts.push(String::from_str(filename));
            assert(crate::config::strings_view(parts@) =~= seq![filename@]);
            if rt == RootType::GameInstall {
                CloudPathPlan::GameInstall { parts }
            } else {
                CloudPathPlan::Root { root: rt, parts }
            }
        },
    }
}


/// Where the cloud file `filename` of root number `root` lives on this
/// machine, as path components: the folder of the root that
/// [`cloud_file_plan`] picks (see
/// [`crate::root_paths::root_base_path_spec`]) followed by the plan's path, or
/// the game's install folder followed by it; no install folder is an error.
pub open spec fn cloud_file_full_path_spec(
    root: u32,
    filename: Seq<char>,
    ov: Option<Seq<RootOverrideConfigModel>>,
    current: Seq<char>,
    cx: LocalContext,
) -> Result<Seq<Seq<char>>, crate::root_paths::RootPathError> {
    let (rt, parts) = cloud_file_plan(root, filename, ov, current);
    match rt {
        Some(t) => match crate::root_paths::root_base_path_spec(
            t,
            cx.os,
            cx.steam_path@,
            cx.user_id@,
            cx.app_id,
            cx.env@,
        ) {
            Ok(b) => Ok(b + parts),
            Err(e) => Err(e),
        },
        None => match cx.game_install_dir {
            Some(d) => Ok(crate::config::strings_view(d@) + parts),
            None => Err(crate::root_paths::RootPathError::GameInstallNotFound(cx.app_id)),
        },
    }
}

/// Appends copies of `parts` to `v`.
fn append_parts(v: &mut Vec<String>, parts: &[String])
    ensures
        crate::config::strings_view(final(v)@) == crate::config::strings_view(old(v)@)
            + crate::config::strings_view(parts@),
{
    let mut i: usize = 0;
    while i < parts.len()
        invariant
            i <= parts@.len(),
            crate::config::strings_view(v@) == crate::config::strings_view(old(v)@)
                + crate::config::strings_view(parts@).take(i as int),
        decreases parts.len() - i,
    {
        let ghost before = v@;
        let c = parts[i].clone();
        v.push(c);
        assert(crate::config::strings_view(v@) =~= crate::config::strings_view(before).push(c@));
        assert(crate::config::strings_view(parts@).take(i + 1) =~= crate::config::strings_view(parts@).take(
            i as int,
        ).push(parts@[i as int]@));
        i = i + 1;
    }
    assert(crate::config::strings_view(parts@).take(i as int) =~= crate::config::strings_view(parts@));
}

/// Where the cloud file `filename` of root number `root` lives on this
/// machine (see [`cloud_file_full_path_spec`]).
pub fn cloud_file_full_path(
    root: u32,
    filename: &str,
    overrides: Option<&[RootOverrideConfig]>,
    current_platform: &str,
    cx: &LocalContext,
) -> (r: Result<Vec<String>, crate::root_paths::RootPathError>)
    ensures
        match cloud_file_full_path_spec(root, filename@, optional_overrides_view(overrides), current_platform@, *cx) {
            Ok(p) => r matches Ok(v) && crate::config::strings_view(v@) == p,
            Err(e) => r == Err::<Vec<String>, crate::root_paths::RootPathError>(e),
        },
{
    let plan = resolve_cloud_file_path(root, filename, overrides, current_platform);
    match plan {
        CloudPathPlan::Root { root: t, parts } => match crate::root_paths::resolve_root_base_path(
            t,
            cx.os,
            cx.steam_path.as_str(),
            cx.user_id.as_str(),
            cx.app_id,
            cx.env.as_slice(),
        ) {
            Ok(b) => {
                let mut v = b;
                append_parts(&mut v, parts.as_slice());
                Ok(v)
            },
            Err(e) => Err(e),
        },
        CloudPathPlan::GameInstall { parts } => match &cx.game_install_dir {
            Some(d) => {
                let mut v = crate::appinfo_writer::copy_strings(d.as_slice());
                append_parts(&mut v, parts.as_slice());
                Ok(v)
            },
            None => Err(crate::root_paths::RootPathError::GameInstallNotFound(cx.app_id)),
        },
    }
}

/// Where the files of a save-file rule are searched: `None` when the rule is
/// not for the running platform or names no known root; otherwise the root
/// and the directory below it. A root override that applies to the rule's root
/// name and names a known root replaces the root and rewrites the directory;
/// without path rewrites, its added path is put in front of the directory.
pub open spec fn scan_plan(
    c: SaveFileConfigModel,
    ov: Option<Seq<RootOverrideConfigModel>>,
    current: Seq<char>,
) -> Option<(RootType, Seq<char>)> {
    if !platforms_admit(c.platforms, current) {
        None
    } else {
        match c.root_type {
            None => None,
            Some(rt) => match override_target(ov, c.root, current) {
                None => Some((rt, c.path)),
                Some((o, t)) => {
                    let p = apply_transforms(c.path, o.path_transforms);
                    Some(
                        (
                            t,
                            if o.path_transforms.len() == 0 && o.add_path.len() > 0 {
                                if p.len() == 0 {
                                    o.add_path
                                } else {
                                    o.add_path + "/"@ + p
                                }
                            } else {
                                p
                            },
                        ),
                    )
                },
            },
        }
    }
}

/// The `Some` value of an optional string, by its characters.
pub open spec fn opt_string_view(o: Option<String>) -> Option<Seq<char>> {
    match o {
        Some(s) => Some(s@),
        None => None,
    }
}

/// The rule searched when a game has no save-file rules: every file, below
/// the game's default root (number 0, the `remote` folder), in subfolders too,
/// on every platform.
pub open spec fn default_scan_rule() -> SaveFileConfigModel {
    SaveFileConfigModel {
        root: seq!['0'],
        root_type: Some(RootType::DefaultApi),
        path: Seq::empty(),
        pattern: seq!['*'],
        platforms: Seq::empty(),
        recursive: true,
    }
}

/// The save-file rules whose files are searched on disk: the game's rules, or
/// the default rule alone when it has none (see [`default_scan_rule`]).
pub fn save_rules_to_scan(savefiles: Vec<SaveFileConfig>) -> (r: Vec<SaveFileConfig>)
    ensures
        savefiles@.len() > 0 ==> r@ == savefiles@,
        savefiles@.len() == 0 ==> r@.len() == 1 && r@[0]@ == default_scan_rule(),
{
    if savefiles.len() > 0 {
        return savefiles;
    }
    let rule = SaveFileConfig {
        root: String::from_str("0"),
        root_type: Some(RootType::DefaultApi),
        path: String::new(),
        pattern: String::from_str("*"),
        platforms: Vec::new(),
        recursive: true,
    };
    proof {
        reveal_strlit("0");
        reveal_strlit("*");
        assert(rule@.root =~= seq!['0']);
        assert(rule@.pattern =~= seq!['*']);
        assert(rule@.platforms =~= Seq::<Seq<char>>::empty());
        assert(rule@.path =~= Seq::<char>::empty());
    }
    let mut r: Vec<SaveFileConfig> = Vec::new();
    r.push(rule);
    r
}

/// Where the files of a save-file rule are searched (see [`scan_plan`]).
pub fn scan_plan_for_config(
    config: &SaveFileConfig,
    overrides: Option<&[RootOverrideConfig]>,
    current_platform: &str,
) -> (r: Option<(RootType, String)>)
    ensures
        match scan_plan(config@, optional_overrides_view(overrides), current_platform@) {
            None => r is None,
            Some((t, p)) => r matches Some(x) && x.0 == t && x.1@ == p,
        },
{
    if !platform_matches_current(config.platforms.as_slice(), current_platform) {
        return None;
    }
    let rt = match config.root_type {
        Some(t) => t,
        None => {
            return None;
        },
    };
    match find_override_target(config.root.as_str(), overrides, current_platform) {
        None => Some((rt, config.path.clone())),
        Some((t, _new_root, add_path, transforms)) => {
            let p = transform_path(config.path.as_str(), transforms.as_slice());
            if transforms.len() == 0 && add_path.as_str().unicode_len() > 0 {
                if p.as_str().unicode_len() == 0 {
                    Some((t, add_path))
                } else {
                    let mut q = add_path;
                    q.append("/");
                    q.append(p.as_str());
                    Some((t, q))
                }
            } else {
                Some((t, p))
            }
        },
    }
}

/// A relative path without its leading `/` characters and then without its
/// leading `\` characters.
pub open spec fn clean_relative(p: Seq<char>) -> Seq<char> {
    crate::text::trim_start_char(crate::text::trim_start_char(p, '/'), '\\')
}

/// Drops the leading `/` and then the leading `\` characters of a relative path.
pub fn clean_relative_path(p: &str) -> (r: &str)
    ensures
        r@ == clean_relative(p@),
{
    crate::text::trim_start_matches_char(crate::text::trim_start_matches_char(p, '/'), '\\')
}

/// The name under which a local file is matched with the cloud: its path
/// below the searched directory, behind the rule's directory when there is one.
pub open spec fn cloud_relative(config_path: Seq<char>, relative_to_scan: Seq<char>) -> Seq<char> {
    if config_path.len() == 0 {
        relative_to_scan
    } else {
        clean_relative(config_path) + "/"@ + relative_to_scan
    }
}

/// The cloud name of a local file found below a rule's directory (see
/// [`cloud_relative`]).
pub fn cloud_relative_path(config_path: &str, relative_to_scan: &str) -> (r: String)
    ensures
        r@ == cloud_relative(config_path@, relative_to_scan@),
{
    if config_path.unicode_len() == 0 {
        String::from_str(relative_to_scan)
    } else {
        let mut s = String::from_str(clean_relative_path(config_path));
        s.append("/");
        s.append(relative_to_scan);
        s
    }
}

/// Whether some save-file rule for the running platform designates root `t`.
pub open spec fn root_designated(sfs: Seq<SaveFileConfigModel>, current: Seq<char>, t: RootType) -> bool {
    exists|i: int|
        0 <= i < sfs.len() && platforms_admit((#[trigger] sfs[i]).platforms, current)
            && sfs[i].root_type == Some(t)
}

/// The roots numbered `c` and up that the rules designate, in increasing order.
pub open spec fn designated_from(sfs: Seq<SaveFileConfigModel>, current: Seq<char>, c: int) -> Seq<RootType>
    decreases 19 - c,
{
    if c < 0 || c > 18 {
        Seq::empty()
    } else {
        let rest = designated_from(sfs, current, c + 1);
        match root_for_code(c as u32) {
            Some(t) => if root_designated(sfs, current, t) {
                seq![t] + rest
            } else {
                rest
            },
            None => rest,
        }
    }
}

/// The models of a list of save-file rules.
pub open spec fn save_configs_view(v: Seq<SaveFileConfig>) -> Seq<SaveFileConfigModel> {
    v.map_values(|c: SaveFileConfig| c@)
}

/// A local save root to look at: a root, the root that an override sends it
/// to (with the new root's name as the override writes it), the text that
/// describes it, and its folder as path components when it can be given.
#[derive(Debug)]
pub struct SaveRootCandidate {
    pub root: RootType,
    pub override_root: Option<(RootType, String)>,
    pub description: String,
    pub path: Option<Vec<String>>,
}

/// The override target of a root as a candidate holds it.
pub open spec fn candidate_override(
    ov: Option<Seq<RootOverrideConfigModel>>,
    t: RootType,
    current: Seq<char>,
) -> Option<(RootType, Seq<char>)> {
    match override_target(ov, root_name(t), current) {
        Some((o, nt)) => Some((nt, o.new_root)),
        None => None,
    }
}

/// Where the machine is: its operating system, the Steam folder, the user, the
/// game, the set environment variables and the game's install folder, if found.
#[derive(Debug, Clone)]
pub struct LocalContext {
    pub os: crate::root_paths::TargetOs,
    pub steam_path: String,
    pub user_id: String,
    pub app_id: u32,
    pub env: Vec<(String, String)>,
    pub game_install_dir: Option<Vec<String>>,
}

/// The folder of root `t` in context `cx`: the game's install folder for the
/// game install root, else the root's base folder when it can be given.
pub open spec fn root_folder(t: RootType, cx: LocalContext) -> Option<Seq<Seq<char>>> {
    if t == RootType::GameInstall {
        match cx.game_install_dir {
            Some(v) => Some(crate::config::strings_view(v@)),
            None => None,
        }
    } else {
        match crate::root_paths::root_base_path_spec(t, cx.os, cx.steam_path@, cx.user_id@, cx.app_id, cx.env@) {
            Ok(p) => Some(p),
            Err(_) => None,
        }
    }
}

/// The description and folder of a designated root `t`: when an override
/// sends it to a root whose folder can be given, the override's root name with
/// the number of `t`, and that folder; otherwise the description of `t` and
/// its own folder.
pub open spec fn candidate_entry(
    t: RootType,
    ov: Option<Seq<RootOverrideConfigModel>>,
    current: Seq<char>,
    cx: LocalContext,
) -> (Seq<char>, Option<Seq<Seq<char>>>) {
    let own = (named_root_description(root_type_name(root_code(t)), root_code(t)), root_folder(t, cx));
    match candidate_override(ov, t, current) {
        Some((nt, name)) => match root_folder(nt, cx) {
            Some(p) => (named_root_description(name, root_code(t)), Some(p)),
            None => own,
        },
        None => own,
    }
}

/// The optional path components of an optional list of strings.
pub open spec fn opt_parts(o: Option<Vec<String>>) -> Option<Seq<Seq<char>>> {
    match o {
        Some(v) => Some(crate::config::strings_view(v@)),
        None => None,
    }
}

/// The folder of root `t` in context `cx` (see [`root_folder`]).
fn folder_of_root(t: RootType, cx: &LocalContext) -> (r: Option<Vec<String>>)
    ensures
        opt_parts(r) == root_folder(t, *cx),
{
    if t == RootType::GameInstall {
        match &cx.game_install_dir {
            Some(v) => Some(crate::appinfo_writer::copy_strings(v.as_slice())),
            None => None,
        }
    } else {
        match crate::root_paths::resolve_root_base_path(
            t,
            cx.os,
            cx.steam_path.as_str(),
            cx.user_id.as_str(),
            cx.app_id,
            cx.env.as_slice(),
        ) {
            Ok(p) => Some(p),
            Err(_) => None,
        }
    }
}

/// Whether a rule list designates root `t` on the running platform.
fn designates(savefiles: &[SaveFileConfig], t: RootType, current_platform: &str) -> (r: bool)
    ensures
        r == root_designated(save_configs_view(savefiles@), current_platform@, t),
{
    let ghost sv = save_configs_view(savefiles@);
    let mut i: usize = 0;
    while i < savefiles.len()
        invariant
            sv == save_configs_view(savefiles@),
            i <= savefiles@.len(),
            forall|k: int|
                0 <= k < i ==> !(platforms_admit((#[trigger] sv[k]).platforms, current_platform@)
                    && sv[k].root_type == Some(t)),
        decreases savefiles.len() - i,
    {
        assert(sv[i as int] == savefiles@[i as int]@);
        if savefiles[i].root_type == Some(t) && platform_matches_current(
            savefiles[i].platforms.as_slice(),
            current_platform,
        ) {
            return true;
        }
        i = i + 1;
    }
    false
}

/// The local save roots of a game: the default root first, with its folder
/// below the Steam folder, then each root that a save-file rule for the
/// running platform designates, once each, in increasing root number, each
/// with the override target of its name and the description and folder of
/// [`candidate_entry`]. Which of the later folders exist on disk is for the
/// caller to see; the Steam Cloud documents root gives the documents folder,
/// below which the game's folder is picked.
pub fn collect_local_save_paths_from_ufs(
    savefiles: &[SaveFileConfig],
    overrides: Option<&[RootOverrideConfig]>,
    current_platform: &str,
    cx: &LocalContext,
) -> (r: Vec<SaveRootCandidate>)
    ensures
        r@.map_values(|c: SaveRootCandidate| c.root) == seq![RootType::DefaultApi] + designated_from(
            save_configs_view(savefiles@),
            current_platform@,
            1,
        ),
        r@[0].override_root is None,
        r@[0].description@ == named_root_description("Default(API)"@, 0),
        opt_parts(r@[0].path) == Some(
            seq![cx.steam_path@, "userdata"@, cx.user_id@, crate::text::decimal(cx.app_id as nat), "remote"@],
        ),
        forall|k: int|
            1 <= k < r@.len() ==> match (#[trigger] r@[k]).override_root {
                Some((t, n)) => candidate_override(
                    optional_overrides_view(overrides),
                    r@[k].root,
                    current_platform@,
                ) == Some((t, n@)),
                None => candidate_override(
                    optional_overrides_view(overrides),
                    r@[k].root,
                    current_platform@,
                ) is None,
            },
        forall|k: int|
            1 <= k < r@.len() ==> candidate_entry(
                (#[trigger] r@[k]).root,
                optional_overrides_view(overrides),
                current_platform@,
                *cx,
            ) == (r@[k].description@, opt_parts(r@[k].path)),
{
    let ghost sv = save_configs_view(savefiles@);
    let ghost full = seq![RootType::DefaultApi] + designated_from(sv, current_platform@, 1);
    let mut out: Vec<SaveRootCandidate> = Vec::new();
    let default_path = folder_of_root(RootType::DefaultApi, cx);
    proof {
        reveal_strlit("Default(API)");
    }
    let default_desc = get_root_description(0);
    assert(root_type_name(0) == "Default(API)"@);
    out.push(SaveRootCandidate {
        root: RootType::DefaultApi,
        override_root: None,
        description: default_desc,
        path: default_path,
    });
    let mut c: u32 = 1;
    assert(out@.map_values(|x: SaveRootCandidate| x.root) =~= seq![RootType::DefaultApi]);
    while c <= 18
        invariant
            sv == save_configs_view(savefiles@),
            full == seq![RootType::DefaultApi] + designated_from(sv, current_platform@, 1),
            1 <= c <= 19,
            out@.len() >= 1,
            out@[0].override_root is None,
            out@[0].description@ == named_root_description("Default(API)"@, 0),
            opt_parts(out@[0].path) == Some(
                seq![cx.steam_path@, "userdata"@, cx.user_id@, crate::text::decimal(cx.app_id as nat), "remote"@],
            ),
            out@.map_values(|x: SaveRootCandidate| x.root) + designated_from(sv, current_platform@, c as int) == full,
            forall|k: int|
                1 <= k < out@.len() ==> match (#[trigger] out@[k]).override_root {
                    Some((t, n)) => candidate_override(
                        optional_overrides_view(overrides),
                        out@[k].root,
                        current_platform@,
                    ) == Some((t, n@)),
                    None => candidate_override(
                        optional_overrides_view(overrides),
                        out@[k].root,
                        current_platform@,
                    ) is None,
                },
            forall|k: int|
                1 <= k < out@.len() ==> candidate_entry(
                    (#[trigger] out@[k]).root,
                    optional_overrides_view(overrides),
                    current_platform@,
                    *cx,
                ) == (out@[k].description@, opt_parts(out@[k].path)),
        decreases 19 - c,
    {
        let ghost before = out@;
        let t = match RootType::from_u32(c) {
            Some(t) => t,
            None => RootType::DefaultApi,
        };
        if designates(savefiles, t, current_platform) {
            let found = find_override_target(t.to_name(), overrides, current_platform);
            let own_path = folder_of_root(t, cx);
            let own_desc = get_root_description(c);
            let (ov, description, path) = match found {
                Some((nt, new_root, _add, _ts)) => {
                    let target_path = folder_of_root(nt, cx);
                    match target_path {
                        Some(p) => {
                            let d = describe_root_named(new_root.as_str(), c);
                            (Some((nt, new_root)), d, Some(p))
                        },
                        None => (Some((nt, new_root)), own_desc, own_path),
                    }
                },
                None => (None, own_desc, own_path),
            };
            let cand = SaveRootCandidate { root: t, override_root: ov, description, path };
            assert(candidate_entry(t, optional_overrides_view(overrides), current_platform@, *cx) == (
                cand.description@,
                opt_parts(cand.path),
            ));
            out.push(cand);
            assert(out@.map_values(|x: SaveRootCandidate| x.root) =~= before.map_values(|x: SaveRootCandidate| x.root) + seq![t]);
        }
        c = c + 1;
    }
    out
}

/// The value of the first quoted field after `needle` on a manifest line: the
/// line must hold `needle`, and the value is the fourth piece between double
/// quotes (`"key"  "value"`).
pub open spec fn line_value(line: Seq<char>, needle: Seq<char>) -> Option<Seq<char>> {
    let pieces = crate::text::split_on(line, '"');
    if crate::text::contains_text(line, needle) && pieces.len() > 3 {
        Some(pieces[3])
    } else {
        None
    }
}

/// The value on the last line that has one.
pub open spec fn last_line_value(lines: Seq<Seq<char>>, needle: Seq<char>) -> Option<Seq<char>>
    decreases lines.len(),
{
    if lines.len() == 0 {
        None
    } else {
        match line_value(lines.last(), needle) {
            Some(v) => Some(v),
            None => last_line_value(lines.drop_last(), needle),
        }
    }
}

/// The value on the first line that has one.
pub open spec fn first_line_value(lines: Seq<Seq<char>>, needle: Seq<char>) -> Option<Seq<char>>
    decreases lines.len(),
{
    if lines.len() == 0 {
        None
    } else {
        match line_value(lines[0], needle) {
            Some(v) => Some(v),
            None => first_line_value(lines.drop_first(), needle),
        }
    }
}

/// The value of one manifest line, if it holds `needle` and a fourth quoted piece.
fn line_value_exec(line: &[char], needle: &str) -> (r: Option<String>)
    ensures
        opt_string_view(r) == line_value(line@, needle@),
{
    let text = crate::text::seq_string(line);
    if !crate::text::str_contains(text.as_str(), needle) {
        return None;
    }
    let pieces = crate::text::split_chars(line, '"');
    if pieces.len() > 3 {
        Some(crate::text::seq_string(pieces[3].as_slice()))
    } else {
        None
    }
}

/// The install directory an app manifest (`appmanifest_<id>.acf`) records: the
/// value of the last line holding `"installdir"`.
pub fn manifest_install_dir(content: &str) -> (r: Option<String>)
    ensures
        opt_string_view(r) == last_line_value(crate::text::text_lines(content@), "\"installdir\""@),
{
    let v = crate::text::str_chars(content);
    let lines = crate::text::lines_of(v.as_slice());
    let ghost ls = crate::text::text_lines(content@);
    let mut found: Option<String> = None;
    let mut i: usize = 0;
    assert(ls.take(0) =~= Seq::<Seq<char>>::empty());
    while i < lines.len()
        invariant
            ls == crate::text::text_lines(content@),
            lines@.len() == ls.len(),
            forall|k: int| 0 <= k < lines@.len() ==> (#[trigger] lines@[k])@ == ls[k],
            i <= lines@.len(),
            opt_string_view(found) == last_line_value(ls.take(i as int), "\"installdir\""@),
        decreases lines.len() - i,
    {
        let lv = line_value_exec(lines[i].as_slice(), "\"installdir\"");
        assert(ls.take(i + 1).drop_last() =~= ls.take(i as int));
        assert(ls.take(i + 1).last() == lines@[i as int]@);
        if lv.is_some() {
            found = lv;
        }
        i = i + 1;
    }
    assert(ls.take(ls.len() as int) =~= ls);
    found
}

/// The game name an app manifest records: the value of the first line holding
/// `"name"`.
pub fn manifest_game_name(content: &str) -> (r: Option<String>)
    ensures
        opt_string_view(r) == first_line_value(crate::text::text_lines(content@), "\"name\""@),
{
    let v = crate::text::str_chars(content);
    let lines = crate::text::lines_of(v.as_slice());
    let ghost ls = crate::text::text_lines(content@);
    let mut i: usize = 0;
    assert(ls.skip(0) =~= ls);
    while i < lines.len()
        invariant
            ls == crate::text::text_lines(content@),
            lines@.len() == ls.len(),
            forall|k: int| 0 <= k < lines@.len() ==> (#[trigger] lines@[k])@ == ls[k],
            i <= lines@.len(),
            first_line_value(ls.skip(i as int), "\"name\""@) == first_line_value(ls, "\"name\""@),
        decreases lines.len() - i,
    {
        let lv = line_value_exec(lines[i].as_slice(), "\"name\"");
        assert(ls.skip(i as int).drop_first() =~= ls.skip(i + 1));
        assert(ls.skip(i as int)[0] == lines@[i as int]@);
        if lv.is_some() {
            return lv;
        }
        i = i + 1;
    }
    None
}

/// The description of a root that an override sends elsewhere: the new root's
/// name as the override writes it, then the original root's number in brackets.
pub fn override_root_description(new_root_name: &str, root: u32) -> (r: String)
    ensures
        r@ == named_root_description(new_root_name@, root),
{
    describe_root_named(new_root_name, root)
}


proof fn lemma_designated_from_increasing(sfs: Seq<SaveFileConfigModel>, current: Seq<char>, c: int)
    requires
        c >= 0,
    ensures
        forall|a: int|
            0 <= a < designated_from(sfs, current, c).len() ==> root_code(
                #[trigger] designated_from(sfs, current, c)[a],
            ) >= c,
        forall|a: int, b: int|
            0 <= a < b < designated_from(sfs, current, c).len() ==> root_code(
                #[trigger] designated_from(sfs, current, c)[a],
            ) < root_code(#[trigger] designated_from(sfs, current, c)[b]),
    decreases 19 - c,
{
    if c <= 18 {
        lemma_designated_from_increasing(sfs, current, c + 1);
        let rest = designated_from(sfs, current, c + 1);
        match root_for_code(c as u32) {
            Some(t) => {
                assert(root_code(t) == c);
                if root_designated(sfs, current, t) {
                    let d = seq![t] + rest;
                    assert forall|a: int| 0 <= a < d.len() implies root_code(#[trigger] d[a]) >= c by {
                        if a > 0 {
                            assert(d[a] == rest[a - 1]);
                        }
                    }
                    assert forall|a: int, b: int| 0 <= a < b < d.len() implies root_code(
                        #[trigger] d[a],
                    ) < root_code(#[trigger] d[b]) by {
                        assert(d[b] == rest[b - 1]);
                        if a > 0 {
                            assert(d[a] == rest[a - 1]);
                        }
                    }
                }
            },
            None => {},
        }
    }
}

/// The local save roots come in strictly increasing root number, the default
/// root first, so no root is listed twice.
pub proof fn lemma_save_roots_increasing(sfs: Seq<SaveFileConfigModel>, current: Seq<char>)
    ensures
        ({
            let roots = seq![RootType::DefaultApi] + designated_from(sfs, current, 1);
            forall|a: int, b: int|
                0 <= a < b < roots.len() ==> root_code(#[trigger] roots[a]) < root_code(
                    #[trigger] roots[b],
                )
        }),
{
    lemma_designated_from_increasing(sfs, current, 1);
    let rest = designated_from(sfs, current, 1);
    let roots = seq![RootType::DefaultApi] + rest;
    assert forall|a: int, b: int| 0 <= a < b < roots.len() implies root_code(
        #[trigger] roots[a],
    ) < root_code(#[trigger] roots[b]) by {
        assert(roots[b] == rest[b - 1]);
        if a > 0 {
            assert(roots[a] == rest[a - 1]);
        }
    }
}


/// Per-game facts kept between lookups: each game's name (from its manifest or
/// the store) and its root overrides, by app id.
pub struct PathCaches {
    pub game_names: HashMap<u32, String>,
    pub root_overrides: HashMap<u32, Vec<RootOverrideConfig>>,
}

impl PathCaches {
    /// Empty caches.
    pub fn new() -> (r: Self)
        ensures
            r.game_names@ == Map::<u32, String>::empty(),
            r.root_overrides@ == Map::<u32, Vec<RootOverrideConfig>>::empty(),
    {
        PathCaches { game_names: HashMap::new(), root_overrides: HashMap::new() }
    }

    /// Records the name of game `app_id`, replacing an earlier one.
    pub fn set_game_name_cache(&mut self, app_id: u32, name: String)
        ensures
            final(self).game_names@ == old(self).game_names@.insert(app_id, name),
            final(self).root_overrides@ == old(self).root_overrides@,
    {
        broadcast use vstd::std_specs::hash::group_hash_axioms;
        self.game_names.insert(app_id, name);
    }

    /// Records the root overrides of game `app_id`, replacing earlier ones.
    pub fn set_root_overrides_cache(&mut self, app_id: u32, overrides: Vec<RootOverrideConfig>)
        ensures
            final(self).root_overrides@ == old(self).root_overrides@.insert(app_id, overrides),
            final(self).game_names@ == old(self).game_names@,
    {
        broadcast use vstd::std_specs::hash::group_hash_axioms;
        self.root_overrides.insert(app_id, overrides);
    }

    /// The recorded name of game `app_id`.
    pub fn get_game_name_cached(&self, app_id: u32) -> (r: Option<&String>)
        ensures
            match r {
                Some(n) => self.game_names@.contains_key(app_id) && *n == self.game_names@[app_id],
                None => !self.game_names@.contains_key(app_id),
            },
    {
        broadcast use vstd::std_specs::hash::group_hash_axioms;
        self.game_names.get(&app_id)
    }

    /// The recorded root overrides of game `app_id`.
    pub fn get_root_overrides_cache(&self, app_id: u32) -> (r: Option<&Vec<RootOverrideConfig>>)
        ensures
            match r {
                Some(v) => self.root_overrides@.contains_key(app_id) && *v
                    == self.root_overrides@[app_id],
                None => !self.root_overrides@.contains_key(app_id),
            },
    {
        broadcast use vstd::std_specs::hash::group_hash_axioms;
        self.root_overrides.get(&app_id)
    }
}


/// A local file found by searching a save-file rule's directory: its path
/// relative to the root (matched against cloud file names), its root number,
/// its size and its time of last change (seconds since the Unix epoch).
#[derive(Debug, Clone)]
pub struct ScannedLocalFile {
    pub relative_path: String,
    pub root_id: u32,
    pub size: u64,
    pub modified: i64,
}

} // verus!
