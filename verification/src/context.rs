//! The values handed to the response layer's templates.

use vstd::prelude::*;

verus! {

/// What the code-rendering template needs: the highlighter's class name
/// for the language, and the highlighted markup.
pub struct CodeContext {
    pub hljsclass: &'static str,
    pub content: String,
}

/// What an upload-response template needs: the short code, where the
/// service lives, and the secret when the object is protected.
pub struct PageContext {
    pub code: String,
    pub url: String,
    pub webroot: String,
    pub password: Option<String>,
}

/// What the landing page needs.
pub struct AppContext {
    pub title: String,
    pub label: String,
    pub webroot: String,
    pub url: String,
    pub languages: Vec<String>,
}

impl PageContext {
    /// The upload response for a finalized object: its code and, when
    /// protected, its secret.
    pub fn for_upload(file: &crate::format::SfssFile, url: String, webroot: String) -> (r: Self)
        ensures
            r.code@ == file.hash@,
            r.url == url,
            r.webroot == webroot,
            crate::format::spec_password_view(r.password) == crate::format::spec_password_view(
                file.password,
            ),
    {
        PageContext {
            code: file.hash.clone(),
            url,
            webroot,
            password: match &file.password {
                Some(p) => Some(p.clone()),
                None => None,
            },
        }
    }
}

} // verus!
