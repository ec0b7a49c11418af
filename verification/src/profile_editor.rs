//! The editing of one profile: what the editor holds while it is open, and
//! what it hands back when the user saves.
use vstd::prelude::*;
use vstd::string::*;
use crate::config::{ProfileConfig, ProfileView, SettingsView};
use crate::crypter::{decrypt, decrypted, encrypt, encrypted};
use crate::encryption_helper::{suggest_encryption_from_version, suggested_encryption};

verus! {

/// The editor of a profile.
pub struct ProfileEditor {
    /// The profile as it is being edited, while the editor is open.
    pub editor_profile: Option<ProfileConfig>,
    /// The place of that profile in the configuration.
    pub editor_index: Option<usize>,
}

/// The profile that the editor shows for the stored profile `profile`: the
/// password is shown as `password`, and the game's files are looked for in
/// the launcher's directory where the profile names no other.
pub open spec fn shown_profile(
    profile: ProfileView,
    password: Seq<char>,
    launcher_dir: Seq<char>,
) -> ProfileView {
    ProfileView {
        settings: SettingsView {
            password,
            ultima_online_directory: if profile.settings.ultima_online_directory.len() == 0 {
                launcher_dir
            } else {
                profile.settings.ultima_online_directory
            },
            ..profile.settings
        },
        ..profile
    }
}

/// The profile `profile` after the version `version` was read from the game
/// client: the version is noted, and the encryption follows it unless it is
/// forced off.
pub open spec fn with_client_version(profile: ProfileView, version: Seq<char>) -> ProfileView {
    ProfileView {
        settings: SettingsView {
            client_version: version,
            encryption: if profile.settings.force_no_encryption {
                profile.settings.encryption
            } else {
                suggested_encryption(version)
            },
            ..profile.settings
        },
        ..profile
    }
}

impl ProfileEditor {
    /// An editor that is closed.
    pub fn new() -> (editor: ProfileEditor)
        ensures
            editor.editor_profile is None,
            editor.editor_index is None,
    {
        ProfileEditor { editor_profile: None, editor_index: None }
    }

    /// Opens the editor on `profile`, which has the place `index`. The
    /// stored password is read back with `password` as the result.
    pub fn open_with_password(
        &mut self,
        profile: ProfileConfig,
        index: usize,
        password: String,
        launcher_dir: &str,
    )
        ensures
            final(self).editor_index == Some(index),
            final(self).editor_profile matches Some(shown) && shown@ == shown_profile(
                profile@,
                password@,
                launcher_dir@,
            ),
    {
        let mut profile = profile;
        profile.settings.password = password;
        if profile.settings.ultima_online_directory.as_str().is_empty() {
            profile.settings.ultima_online_directory = launcher_dir.to_string();
        }
        self.editor_index = Some(index);
        self.editor_profile = Some(profile);
    }

    /// Opens the editor on `profile`, which has the place `index`. The
    /// stored password is read back under the key of this machine.
    pub fn open(&mut self, profile: ProfileConfig, index: usize, launcher_dir: &str)
        ensures
            final(self).editor_index == Some(index),
            final(self).editor_profile is Some,
            exists|key: Seq<char>|
                final(self).editor_profile->0@ == shown_profile(
                    profile@,
                    #[trigger] decrypted(profile@.settings.password, key),
                    launcher_dir@,
                ),
    {
        let password = decrypt(profile.settings.password.as_str());
        let ghost key = choose|key: Seq<char>|
            password@ == decrypted(profile@.settings.password, key);
        self.open_with_password(profile, index, password, launcher_dir);
        assert(self.editor_profile->0@ == shown_profile(
            profile@,
            decrypted(profile@.settings.password, key),
            launcher_dir@,
        ));
    }

    /// Closes the editor. What was edited is dropped.
    pub fn close(&mut self)
        ensures
            final(self).editor_profile is None,
            final(self).editor_index is None,
    {
        self.editor_profile = None;
        self.editor_index = None;
    }

    /// Whether the editor is open.
    pub fn is_open(&self) -> (r: bool)
        ensures
            r == self.editor_profile is Some,
    {
        self.editor_profile.is_some()
    }

    /// Takes note of the version that was read from the game client in the
    /// directory of the profile being edited. Nothing changes while the
    /// editor is closed.
    pub fn client_version_found(&mut self, version: &str)
        ensures
            final(self).editor_index == old(self).editor_index,
            match old(self).editor_profile {
                Some(profile) => final(self).editor_profile matches Some(changed) && changed@
                    == with_client_version(profile@, version@),
                None => final(self).editor_profile is None,
            },
    {
        match self.editor_profile.take() {
            Some(profile) => {
                let mut profile = profile;
                profile.settings.client_version = version.to_string();
                if !profile.settings.force_no_encryption {
                    profile.settings.encryption = suggest_encryption_from_version(version);
                }
                self.editor_profile = Some(profile);
            },
            None => {},
        }
    }

    /// Ends the editing with the user's wish to save: the editor closes, and
    /// hands back the place of the profile and the profile as edited, where
    /// it was open on one.
    pub fn save(&mut self) -> (edited: Option<(usize, ProfileConfig)>)
        ensures
            final(self).editor_profile is None,
            final(self).editor_index is None,
            edited == match (old(self).editor_index, old(self).editor_profile) {
                (Some(index), Some(profile)) => Some((index, profile)),
                _ => None,
            },
    {
        let index = self.editor_index.take();
        let profile = self.editor_profile.take();
        match (index, profile) {
            (Some(index), Some(profile)) => Some((index, profile)),
            _ => None,
        }
    }
}

/// The profile that is stored for the edited profile `profile`: its
/// password is obfuscated as `password`.
pub open spec fn stored_profile(profile: ProfileView, password: Seq<char>) -> ProfileView {
    ProfileView { settings: SettingsView { password, ..profile.settings }, ..profile }
}

/// Makes the edited profile ready to be stored: its password is obfuscated
/// under the key of this machine.
pub fn seal_profile(profile: ProfileConfig) -> (sealed: ProfileConfig)
    ensures
        exists|key: Seq<char>|
            sealed@ == stored_profile(
                profile@,
                #[trigger] encrypted(profile@.settings.password, key),
            ),
{
    let mut sealed = profile;
    sealed.settings.password = encrypt(sealed.settings.password.as_str());
    proof {
        let key = choose|key: Seq<char>|
            sealed@.settings.password == encrypted(profile@.settings.password, key);
        assert(sealed@ == stored_profile(
            profile@,
            encrypted(profile@.settings.password, key),
        ));
    }
    sealed
}

} // verus!
