//! The upload-response templates and their selection.
//!
//! Four variants: web page or bare API line, each with or without the
//! secret appended. The placeholders are filled by the response layer
//! from a [`crate::context::PageContext`].

use vstd::prelude::*;

verus! {

/// The web page shown after an upload of an unprotected object.
pub open spec fn spec_template_upload() -> Seq<char> {
    "<html><body><p>Your file is at <a href=\"{{url}}{{webroot}}{{code}}\">{{url}}{{webroot}}{{code}}</a></p></body></html>"@
}

/// The web page shown after an upload of a protected object.
pub open spec fn spec_template_upload_password() -> Seq<char> {
    "<html><body><p>Your file is at <a href=\"{{url}}{{webroot}}{{code}}?password={{password}}\">{{url}}{{webroot}}{{code}}</a>, password {{password}}</p></body></html>"@
}

/// The bare line answered to an API upload of an unprotected object.
pub open spec fn spec_template_upload_api() -> Seq<char> {
    "{{url}}{{webroot}}{{code}}"@
}

/// The bare line answered to an API upload of a protected object.
pub open spec fn spec_template_upload_api_password() -> Seq<char> {
    "{{url}}{{webroot}}{{code}}?password={{password}}"@
}

/// The template that fits the caller and the object: bare for the API,
/// a page for the browser, each mentioning the secret exactly when there
/// is one.
pub open spec fn spec_template(api: bool, password: bool) -> Seq<char> {
    if api {
        if password {
            spec_template_upload_api_password()
        } else {
            spec_template_upload_api()
        }
    } else {
        if password {
            spec_template_upload_password()
        } else {
            spec_template_upload()
        }
    }
}

/// Picks the upload-response template.
pub fn get_template(api: bool, password: bool) -> (r: &'static str)
    ensures
        r@ == spec_template(api, password),
{
    if api {
        if password {
            "{{url}}{{webroot}}{{code}}?password={{password}}"
        } else {
            "{{url}}{{webroot}}{{code}}"
        }
    } else {
        if password {
            "<html><body><p>Your file is at <a href=\"{{url}}{{webroot}}{{code}}?password={{password}}\">{{url}}{{webroot}}{{code}}</a>, password {{password}}</p></body></html>"
        } else {
            "<html><body><p>Your file is at <a href=\"{{url}}{{webroot}}{{code}}\">{{url}}{{webroot}}{{code}}</a></p></body></html>"
        }
    }
}

} // verus!
