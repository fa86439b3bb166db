//! Client-side session manager for a Yggdrasil-style account-authentication
//! protocol, a version-catalog reader, and a launch-configuration builder.
//!
//! The authentication operations live in [`yggdrasil`], the version catalog
//! in [`meta`].  This root module holds the launch-configuration builder: it
//! combines an authentication result and a directory choice into an
//! immutable [`Launcher`], applying a per-platform default directory when no
//! override is supplied.

use vstd::prelude::*;
use vstd::string::StringExecFns;

pub mod error;
pub mod json;
pub mod meta;
pub mod yggdrasil;

use crate::error::Error;
use crate::yggdrasil::{AuthenticationResponse, NameUUID, ProfileView};

verus! {

/// The operating-system family a launch configuration is built for.
pub enum Platform {
    Windows,
    MacOs,
    Other,
}

/// The environment values the default-directory rules may consult.  The
/// caller reads them from the process environment (or substitutes fixed
/// values) and hands them over as plain data.
pub struct EnvVars {
    /// The value of `APPDATA`, if set.
    pub appdata: Option<String>,
    /// The value of `HOME`, if set.
    pub home: Option<String>,
}

/// The mathematical content of [`EnvVars`].
pub ghost struct EnvVarsView {
    pub appdata: Option<Seq<char>>,
    pub home: Option<Seq<char>>,
}

impl View for EnvVars {
    type V = EnvVarsView;

    open spec fn view(&self) -> EnvVarsView {
        EnvVarsView {
            appdata: match self.appdata {
                Some(s) => Some(s@),
                None => None,
            },
            home: match self.home {
                Some(s) => Some(s@),
                None => None,
            },
        }
    }
}

/// The default game directory for a platform and environment: under
/// `APPDATA` on Windows, under `HOME` elsewhere; none when the needed
/// variable is absent.
pub open spec fn spec_default_launcher_dir(p: Platform, env: EnvVarsView) -> Option<Seq<char>> {
    match p {
        Platform::Windows => match env.appdata {
            Some(a) => Some(a + "/.minecraft"@),
            None => None,
        },
        Platform::MacOs => match env.home {
            Some(h) => Some(h + "/Library/Application Support/.minecraft"@),
            None => None,
        },
        Platform::Other => match env.home {
            Some(h) => Some(h + "/.minecraft"@),
            None => None,
        },
    }
}

/// Resolves the platform's default launcher directory.  A missing
/// environment variable is a fatal configuration error, never a silent
/// fallback to a relative path.
pub fn default_launcher_dir(platform: &Platform, env: &EnvVars) -> (r: Result<String, Error>)
    ensures
        match r {
            Ok(d) => spec_default_launcher_dir(*platform, env@) == Some(d@),
            Err(e) => spec_default_launcher_dir(*platform, env@) is None && e
                == Error::MissingEnvVar,
        },
{
    match platform {
        Platform::Windows => match &env.appdata {
            Some(a) => Ok(a.clone().concat("/.minecraft")),
            None => Err(Error::MissingEnvVar),
        },
        Platform::MacOs => match &env.home {
            Some(h) => Ok(h.clone().concat("/Library/Application Support/.minecraft")),
            None => Err(Error::MissingEnvVar),
        },
        Platform::Other => match &env.home {
            Some(h) => Ok(h.clone().concat("/.minecraft")),
            None => Err(Error::MissingEnvVar),
        },
    }
}

/// An immutable launch configuration: the durable artifact this library
/// produces.
pub struct Launcher {
    pub access_token: String,
    pub client_token: Option<String>,
    pub profile: NameUUID,
    pub launcher_directory: String,
}

/// The mathematical content of a [`Launcher`].
pub ghost struct LauncherView {
    pub access_token: Seq<char>,
    pub client_token: Option<Seq<char>>,
    pub profile: ProfileView,
    pub launcher_directory: Seq<char>,
}

impl View for Launcher {
    type V = LauncherView;

    open spec fn view(&self) -> LauncherView {
        LauncherView {
            access_token: self.access_token@,
            client_token: match self.client_token {
                Some(t) => Some(t@),
                None => None,
            },
            profile: self.profile@,
            launcher_directory: self.launcher_directory@,
        }
    }
}

impl Launcher {
    /// Alias to [`LauncherBuilder::new`].
    pub fn builder(auth_response: &AuthenticationResponse) -> (r: LauncherBuilder)
        ensures
            r@ == (LauncherBuilderView {
                access_token: auth_response@.access_token,
                client_token: auth_response@.client_token,
                profile: auth_response@.selected_profile,
                launcher_directory: None,
            }),
    {
        LauncherBuilder::new(auth_response)
    }
}

/// A staged builder for [`Launcher`]: it copies the tokens and selected
/// profile out of an authentication result, optionally receives a directory
/// override, and resolves the remaining default on [`LauncherBuilder::build`].
pub struct LauncherBuilder {
    access_token: String,
    client_token: Option<String>,
    profile: NameUUID,
    launcher_directory: Option<String>,
}

/// The mathematical content of a [`LauncherBuilder`].
pub ghost struct LauncherBuilderView {
    pub access_token: Seq<char>,
    pub client_token: Option<Seq<char>>,
    pub profile: ProfileView,
    pub launcher_directory: Option<Seq<char>>,
}

impl View for LauncherBuilder {
    type V = LauncherBuilderView;

    closed spec fn view(&self) -> LauncherBuilderView {
        LauncherBuilderView {
            access_token: self.access_token@,
            client_token: match self.client_token {
                Some(t) => Some(t@),
                None => None,
            },
            profile: self.profile@,
            launcher_directory: match self.launcher_directory {
                Some(d) => Some(d@),
                None => None,
            },
        }
    }
}

impl LauncherBuilder {
    pub fn new(auth_response: &AuthenticationResponse) -> (r: Self)
        ensures
            r@ == (LauncherBuilderView {
                access_token: auth_response@.access_token,
                client_token: auth_response@.client_token,
                profile: auth_response@.selected_profile,
                launcher_directory: None,
            }),
    {
        LauncherBuilder {
            access_token: auth_response.access_token.clone(),
            client_token: match &auth_response.client_token {
                Some(t) => Some(t.clone()),
                None => None,
            },
            profile: auth_response.selected_profile.clone(),
            launcher_directory: None,
        }
    }

    /// Sets an explicit directory override.
    pub fn launcher_directory(self, launcher_directory: String) -> (r: Self)
        ensures
            r@ == (LauncherBuilderView {
                access_token: self@.access_token,
                client_token: self@.client_token,
                profile: self@.profile,
                launcher_directory: Some(launcher_directory@),
            }),
    {
        LauncherBuilder {
            access_token: self.access_token,
            client_token: self.client_token,
            profile: self.profile,
            launcher_directory: Some(launcher_directory),
        }
    }

    /// Finalizes the configuration.  An explicit override is taken exactly
    /// as supplied, whatever the platform or environment; otherwise the
    /// platform default applies, and its missing environment variable is
    /// the only way to fail.
    pub fn build(self, platform: &Platform, env: &EnvVars) -> (r: Result<Launcher, Error>)
        ensures
            match r {
                Ok(l) => {
                    &&& l@.access_token == self@.access_token
                    &&& l@.client_token == self@.client_token
                    &&& l@.profile == self@.profile
                    &&& match self@.launcher_directory {
                        Some(d) => l@.launcher_directory == d,
                        None => spec_default_launcher_dir(*platform, env@) == Some(
                            l@.launcher_directory,
                        ),
                    }
                },
                Err(e) => self@.launcher_directory is None && spec_default_launcher_dir(
                    *platform,
                    env@,
                ) is None && e == Error::MissingEnvVar,
            },
    {
        let LauncherBuilder { access_token, client_token, profile, launcher_directory } = self;
        let launcher_directory = match launcher_directory {
            Some(dir) => dir,
            None => match default_launcher_dir(platform, env) {
                Ok(d) => d,
                Err(e) => return Err(e),
            },
        };
        Ok(Launcher { access_token, client_token, profile, launcher_directory })
    }
}

} // verus!
