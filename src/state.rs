use vstd::prelude::*;

use crate::console::{ConfigApp, ConsoleApp, DEFAULT_MAX_CONSOLE_LINES, DEFAULT_TIME_THRESHOLD};
use crate::ring::keep_last;
use crate::text::lines_of;

verus! {

/// Where the project's source is published.
pub const GITHUB_URL: &'static str = "https://github.com/julienwetzel/windows-trash-manager";

/// Base address of the project's files.
pub const GITHUB_URL_BLOB: &'static str = "https://github.com/julienwetzel/windows-trash-manager/blob/main/";

/// The instructions written to the console at start-up.
pub const NOTICE: &'static str = "
📖 NOTICE D'UTILISATION 📖\n\n\
▶ Préserver X jours ◀\n\
  Permet de spécifier le nombre de jours durant lesquels les éléments restent \
  dans la corbeille avant d'être supprimés définitivement.\n\
   Exemple: Si défini sur 5 jours, les éléments supprimés il y a plus de 5 jours \
  seront automatiquement supprimés de la corbeille.\n\
▶ Analyser ◀\n\
  Ce bouton permet de lister les éléments supprimés au-delà du nombre de jours \
  défini pour la corbeille.\n\
▶ Supprimer définitivement ◀\n\
  Ce bouton permet de supprimer définitivement les éléments qui ont dépassé le \
  nombre de jours défini pour la corbeille.\n\
🖊 Remarque: Il n'est pas nécessaire d'effectuer une analyse au préalable.\n\n";

/// The project's addresses, shown as links.
pub struct GitHubInfo {
    url: String,
    url_blob: String,
}

impl GitHubInfo {
    pub closed spec fn spec_url(&self) -> Seq<char> {
        self.url@
    }

    pub closed spec fn spec_url_blob(&self) -> Seq<char> {
        self.url_blob@
    }

    pub fn url(&self) -> (r: &String)
        ensures
            r@ == self.spec_url(),
    {
        &self.url
    }

    pub fn url_blob(&self) -> (r: &String)
        ensures
            r@ == self.spec_url_blob(),
    {
        &self.url_blob
    }
}

impl Default for GitHubInfo {
    fn default() -> (r: Self)
        ensures
            r.spec_url() == GITHUB_URL@,
            r.spec_url_blob() == GITHUB_URL_BLOB@,
    {
        GitHubInfo { url: GITHUB_URL.to_owned(), url_blob: GITHUB_URL_BLOB.to_owned() }
    }
}

/// The application's state: the settings and the console.
pub struct TemplateApp {
    pub config_app: ConfigApp,
    pub console_app: ConsoleApp,
}

impl TemplateApp {
    pub open spec fn wf(&self) -> bool {
        self.console_app.wf()
    }

    /// The state at start-up: the saved state if there is one, else the
    /// defaults, with the instructions written to the console.
    pub fn restore(saved: Option<TemplateApp>) -> (r: Self)
        requires
            saved matches Some(s) ==> s.wf(),
        ensures
            r.wf(),
            match saved {
                Some(s) => {
                    &&& r.config_app == s.config_app
                    &&& r.console_app.max_lines() == s.console_app.max_lines()
                    &&& r.console_app@ == keep_last(
                        s.console_app@ + lines_of(NOTICE@),
                        s.console_app.max_lines(),
                    )
                },
                None => {
                    &&& r.config_app.time_threshold() == DEFAULT_TIME_THRESHOLD
                    &&& r.config_app.max_console_lines() == DEFAULT_MAX_CONSOLE_LINES
                    &&& r.console_app.max_lines() == DEFAULT_MAX_CONSOLE_LINES
                    &&& r.console_app@ == keep_last(lines_of(NOTICE@), DEFAULT_MAX_CONSOLE_LINES as nat)
                },
            },
    {
        let mut app = match saved {
            Some(s) => s,
            None => TemplateApp::default(),
        };
        proof {
            assert(Seq::<Seq<char>>::empty() + lines_of(NOTICE@) =~= lines_of(NOTICE@));
        }
        app.console_app.add_to_buffer(NOTICE);
        app
    }
}

impl Default for TemplateApp {
    fn default() -> (r: Self)
        ensures
            r.wf(),
            r.config_app.time_threshold() == DEFAULT_TIME_THRESHOLD,
            r.config_app.max_console_lines() == DEFAULT_MAX_CONSOLE_LINES,
            r.console_app@ == Seq::<Seq<char>>::empty(),
            r.console_app.max_lines() == DEFAULT_MAX_CONSOLE_LINES,
    {
        TemplateApp { config_app: ConfigApp::default(), console_app: ConsoleApp::default() }
    }
}

} // verus!
