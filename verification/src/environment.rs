use vstd::prelude::*;

verus! {

/// The well-known directories of the current user, as display text. Which
/// of them exist depends on the machine, so the dialog merely shows them as
/// shortcuts; it promises nothing about their values.
#[derive(Clone, Debug)]
pub struct UserDirectories {
    pub home_dir: String,
    pub audio_dir: Option<String>,
    pub desktop_dir: Option<String>,
    pub document_dir: Option<String>,
    pub download_dir: Option<String>,
    pub picture_dir: Option<String>,
    pub video_dir: Option<String>,
}

/// The mathematical value of a user-directories snapshot.
pub struct UserDirectoriesView {
    pub home_dir: Seq<char>,
    pub audio_dir: Option<Seq<char>>,
    pub desktop_dir: Option<Seq<char>>,
    pub document_dir: Option<Seq<char>>,
    pub download_dir: Option<Seq<char>>,
    pub picture_dir: Option<Seq<char>>,
    pub video_dir: Option<Seq<char>>,
}

impl View for UserDirectories {
    type V = UserDirectoriesView;

    open spec fn view(&self) -> UserDirectoriesView {
        UserDirectoriesView {
            home_dir: self.home_dir@,
            audio_dir: self.audio_dir.deep_view(),
            desktop_dir: self.desktop_dir.deep_view(),
            document_dir: self.document_dir.deep_view(),
            download_dir: self.download_dir.deep_view(),
            picture_dir: self.picture_dir.deep_view(),
            video_dir: self.video_dir.deep_view(),
        }
    }
}

impl DeepView for UserDirectories {
    type V = UserDirectoriesView;

    open spec fn deep_view(&self) -> UserDirectoriesView {
        self.view()
    }
}

/// One system disk: its device name and its mount point, as display text.
#[derive(Clone, Debug)]
pub struct DiskInfo {
    pub name: String,
    pub mount_point: String,
}

/// The mathematical value of one disk entry.
pub struct DiskInfoView {
    pub name: Seq<char>,
    pub mount_point: Seq<char>,
}

impl View for DiskInfo {
    type V = DiskInfoView;

    open spec fn view(&self) -> DiskInfoView {
        DiskInfoView { name: self.name@, mount_point: self.mount_point@ }
    }
}

impl DeepView for DiskInfo {
    type V = DiskInfoView;

    open spec fn deep_view(&self) -> DiskInfoView {
        self.view()
    }
}

/// Relies on directories::UserDirs::new and its accessors home_dir,
/// audio_dir, desktop_dir, document_dir, download_dir, picture_dir and
/// video_dir, which read the user's environment. The result depends on the
/// machine, so nothing is promised of it.
#[verifier::external_body]
pub(crate) fn fetch_user_directories() -> Option<UserDirectories> {
    directories::UserDirs::new().map(|d| UserDirectories {
        home_dir: d.home_dir().to_string_lossy().into_owned(),
        audio_dir: d.audio_dir().map(|p| p.to_string_lossy().into_owned()),
        desktop_dir: d.desktop_dir().map(|p| p.to_string_lossy().into_owned()),
        document_dir: d.document_dir().map(|p| p.to_string_lossy().into_owned()),
        download_dir: d.download_dir().map(|p| p.to_string_lossy().into_owned()),
        picture_dir: d.picture_dir().map(|p| p.to_string_lossy().into_owned()),
        video_dir: d.video_dir().map(|p| p.to_string_lossy().into_owned()),
    })
}

/// Relies on sysinfo::Disks::new_with_refreshed_list, Disk::name and
/// Disk::mount_point, which read the machine's disks. The result depends on
/// the machine, so nothing is promised of it.
#[verifier::external_body]
pub(crate) fn fetch_system_disks() -> Vec<DiskInfo> {
    let disks = sysinfo::Disks::new_with_refreshed_list();
    disks.list().iter().map(
        |d| DiskInfo {
            name: d.name().to_string_lossy().into_owned(),
            mount_point: d.mount_point().to_string_lossy().into_owned(),
        },
    ).collect()
}

} // verus!
