//! The verified identity and the data handed to the form page.

use vstd::prelude::*;
use vstd::string::*;
use crate::text::opt_text;

verus! {

/// The identity that the provider reports for the signed-in user.
#[derive(Debug)]
pub struct UserProfile {
    pub name: String,
    pub discriminator: String,
    pub email: Option<String>,
}

/// What a [`UserProfile`] holds.
pub struct ProfileView {
    pub name: Seq<char>,
    pub discriminator: Seq<char>,
    pub email: Option<Seq<char>>,
}

impl View for UserProfile {
    type V = ProfileView;

    open spec fn view(&self) -> ProfileView {
        ProfileView {
            name: self.name@,
            discriminator: self.discriminator@,
            email: opt_text(self.email),
        }
    }
}

/// The fields of the form page.
#[derive(Debug)]
pub struct FormTemplate {
    pub username: String,
    pub discriminator: String,
    pub token: String,
    pub email: String,
    pub form_embed_url: String,
}

/// What a [`FormTemplate`] holds.
pub struct FormView {
    pub username: Seq<char>,
    pub discriminator: Seq<char>,
    pub token: Seq<char>,
    pub email: Seq<char>,
    pub form_embed_url: Seq<char>,
}

impl View for FormTemplate {
    type V = FormView;

    open spec fn view(&self) -> FormView {
        FormView {
            username: self.username@,
            discriminator: self.discriminator@,
            token: self.token@,
            email: self.email@,
            form_embed_url: self.form_embed_url@,
        }
    }
}

/// The text shown where the provider reports no email address.
pub open spec fn no_email() -> Seq<char> {
    "<no email found>"@
}

/// The form fields for a profile, its signed token and the embed address.
pub open spec fn form_for(profile: ProfileView, token: Seq<char>, form_embed_url: Seq<char>) -> FormView {
    FormView {
        username: profile.name,
        discriminator: profile.discriminator,
        token,
        email: match profile.email {
            Some(email) => email,
            None => no_email(),
        },
        form_embed_url,
    }
}

impl FormTemplate {
    /// Fills the form from a profile: the email field holds the profile's
    /// address, or the placeholder text where it has none.
    pub fn for_profile(profile: UserProfile, token: String, form_embed_url: String) -> (form: FormTemplate)
        ensures
            form@ == form_for(profile@, token@, form_embed_url@),
    {
        let email: String = match profile.email {
            Some(email) => email,
            None => "<no email found>".to_owned(),
        };
        FormTemplate {
            username: profile.name,
            discriminator: profile.discriminator,
            token,
            email,
            form_embed_url,
        }
    }
}

/// A profile without an email address always shows the placeholder text, and
/// one with an address always shows that address.
pub proof fn email_field_law(profile: ProfileView, token: Seq<char>, form_embed_url: Seq<char>)
    ensures
        profile.email is None ==> form_for(profile, token, form_embed_url).email == no_email(),
        profile.email matches Some(e) ==> form_for(profile, token, form_embed_url).email == e,
        form_for(profile, token, form_embed_url).username == profile.name,
        form_for(profile, token, form_embed_url).token == token,
{
}

} // verus!
