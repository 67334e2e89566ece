//! TLS settings of a driver.

use vstd::prelude::*;

verus! {

/// Which certificates a driver trusts.
#[derive(Clone, Debug, PartialEq, Eq)]
pub enum TlsMode {
    /// The built-in roots; what production uses.
    SystemRoots,
    /// The built-in roots and the certificates of a PEM file.
    CustomCa {
        /// The path of the PEM file.
        path: String,
    },
    /// No certificate is checked. For local development only.
    InsecureDevOnly,
}

/// The TLS settings of a driver.
#[derive(Clone, Debug, PartialEq, Eq)]
pub struct TlsConfig {
    /// Which certificates are trusted.
    pub mode: TlsMode,
    /// Whether the server name is sent. Turning it off is refused by the driver.
    pub sni: bool,
}

/// Which certificates a driver trusts, as mathematical values.
pub enum TlsModeView {
    SystemRoots,
    CustomCa { path: Seq<char> },
    InsecureDevOnly,
}

/// The TLS settings of a driver, as mathematical values.
pub struct TlsView {
    pub mode: TlsModeView,
    pub sni: bool,
}

impl View for TlsConfig {
    type V = TlsView;

    open spec fn view(&self) -> TlsView {
        TlsView {
            mode: match self.mode {
                TlsMode::SystemRoots => TlsModeView::SystemRoots,
                TlsMode::CustomCa { path } => TlsModeView::CustomCa { path: path@ },
                TlsMode::InsecureDevOnly => TlsModeView::InsecureDevOnly,
            },
            sni: self.sni,
        }
    }
}

impl TlsConfig {
    /// The built-in roots.
    pub fn system_roots() -> (r: Self)
        ensures
            r@ == (TlsView { mode: TlsModeView::SystemRoots, sni: true }),
    {
        TlsConfig { mode: TlsMode::SystemRoots, sni: true }
    }

    /// The built-in roots and those of the PEM file at `path`.
    pub fn custom_ca(path: &str) -> (r: Self)
        ensures
            r@ == (TlsView { mode: TlsModeView::CustomCa { path: path@ }, sni: true }),
    {
        TlsConfig { mode: TlsMode::CustomCa { path: path.to_owned() }, sni: true }
    }

    /// No certificate check at all, for local development.
    pub fn insecure_dev_only() -> (r: Self)
        ensures
            r@ == (TlsView { mode: TlsModeView::InsecureDevOnly, sni: true }),
    {
        TlsConfig { mode: TlsMode::InsecureDevOnly, sni: true }
    }
}

/// TLS settings are known by their mode, with the path of a CA file, and by whether the server
/// name is sent.
pub proof fn law_tls_settings_keep_mode_path_and_name(t: TlsConfig)
    ensures
        t@.sni == t.sni,
        t@.mode is SystemRoots <==> t.mode is SystemRoots,
        t@.mode is InsecureDevOnly <==> t.mode is InsecureDevOnly,
        t@.mode is CustomCa <==> t.mode is CustomCa,
        t.mode matches TlsMode::CustomCa { path } ==> t@.mode == (TlsModeView::CustomCa {
            path: path@,
        }),
{
}

} // verus!
