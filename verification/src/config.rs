use vstd::prelude::*;

verus! {

/// The environment-derived configuration, resolved once per command by
/// the caller and handed to every builder. The fallbacks for the
/// extension and the template path are already applied; the compile
/// override stays `None` when its variable is unset.
pub struct Config {
    /// Solution file extension (`RAJ_EXTENSION`, fallback `rs`).
    pub extension: String,
    /// Template file path (`RAJ_TEMPLATE_FILE`, fallback `template.rs`).
    pub template_file: String,
    /// Compile command override (`RAJ_COMPILE`); `None` when unset.
    pub compile: Option<String>,
}

/// Returns the looked-up value when the variable was set — even to the
/// empty string — and the fallback otherwise.
pub fn resolve(value: Option<String>, fallback: &str) -> (r: String)
    ensures
        (match value {
            Some(v) => r@ == v@,
            None => r@ == fallback@,
        }),
{
    match value {
        Some(v) => v,
        None => fallback.to_owned(),
    }
}

impl Config {
    /// Builds the configuration from the raw lookups of `RAJ_EXTENSION`,
    /// `RAJ_TEMPLATE_FILE` and `RAJ_COMPILE`, applying the fallbacks.
    pub fn from_env(
        extension: Option<String>,
        template_file: Option<String>,
        compile: Option<String>,
    ) -> (c: Config)
        ensures
            c.extension@ == (match extension {
                Some(e) => e@,
                None => "rs"@,
            }),
            c.template_file@ == (match template_file {
                Some(t) => t@,
                None => "template.rs"@,
            }),
            c.compile == compile,
    {
        Config {
            extension: resolve(extension, "rs"),
            template_file: resolve(template_file, "template.rs"),
            compile,
        }
    }
}

} // verus!
