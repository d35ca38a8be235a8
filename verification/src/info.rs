//! Who made the described program, and how it reads its command line.

use crate::error::DecodeError;
use crate::field::Field;
use crate::json::{json_is_null, json_is_object, json_object, json_view, JsonView};
use crate::schema::{
    deep, empty_object, optional_flag, optional_flag_json, optional_record, optional_text,
    optional_text_json, put_optional, put_optional_flag, put_optional_text, put_text, read_member,
    read_optional_flag, read_optional_text, read_required_text, required_text, text_json, with,
    with_optional,
};
use vstd::prelude::*;

verus! {

/// Contact information of a person or an organization.
#[derive(Debug, PartialEq)]
pub struct OpenCliContact {
    /// The identifying name of the contact.
    pub name: Option<String>,
    /// The address of the contact's page.
    pub url: Option<String>,
    /// The contact's email address.
    pub email: Option<String>,
}

/// What a contact holds, as mathematical values.
pub struct ContactView {
    pub name: Option<Seq<char>>,
    pub url: Option<Seq<char>>,
    pub email: Option<Seq<char>>,
}

impl DeepView for OpenCliContact {
    type V = ContactView;

    open spec fn deep_view(&self) -> ContactView {
        ContactView {
            name: self.name.deep_view(),
            url: self.url.deep_view(),
            email: self.email.deep_view(),
        }
    }
}

impl View for OpenCliContact {
    type V = ContactView;

    open spec fn view(&self) -> ContactView {
        self.deep_view()
    }
}

/// The contact that a tree describes. The members are tried in the order
/// written, and the first that fails decides the failure.
pub open spec fn decode_contact(j: JsonView) -> Result<ContactView, DecodeError> {
    let name = optional_text(j, Field::Name);
    let url = optional_text(j, Field::Url);
    let email = optional_text(j, Field::Email);
    if !(j is Object) {
        Err(DecodeError::NotAnObject)
    } else if name is Err {
        Err(name->Err_0)
    } else if url is Err {
        Err(url->Err_0)
    } else if email is Err {
        Err(email->Err_0)
    } else {
        Ok(ContactView { name: name->Ok_0, url: url->Ok_0, email: email->Ok_0 })
    }
}

/// The tree that is written for a contact.
pub open spec fn encode_contact(c: ContactView) -> JsonView {
    let j = empty_object();
    let j = with_optional(j, Field::Name, optional_text_json(c.name));
    let j = with_optional(j, Field::Url, optional_text_json(c.url));
    with_optional(j, Field::Email, optional_text_json(c.email))
}

impl Clone for OpenCliContact {
    fn clone(&self) -> (r: Self)
        ensures
            r@ == self@,
    {
        OpenCliContact {
            name: self.name.clone(),
            url: self.url.clone(),
            email: self.email.clone(),
        }
    }
}

impl OpenCliContact {
    /// Reads a contact from a tree.
    pub fn from_value(v: &serde_json::Value) -> (r: Result<Self, DecodeError>)
        ensures
            deep(r) == decode_contact(json_view(*v)),
    {
        if !json_is_object(v) {
            return Err(DecodeError::NotAnObject);
        }
        let name = read_optional_text(v, Field::Name)?;
        let url = read_optional_text(v, Field::Url)?;
        let email = read_optional_text(v, Field::Email)?;
        Ok(OpenCliContact { name, url, email })
    }

    /// Writes the contact as a tree.
    pub fn to_value(&self) -> (r: serde_json::Value)
        ensures
            json_view(r) == encode_contact(self@),
    {
        let mut obj = json_object();
        put_optional_text(&mut obj, Field::Name, &self.name);
        put_optional_text(&mut obj, Field::Url, &self.url);
        put_optional_text(&mut obj, Field::Email, &self.email);
        obj
    }
}

/// The license under which the described program is distributed.
#[derive(Debug, PartialEq)]
pub struct OpenCliLicense {
    /// The license name.
    pub name: Option<String>,
    /// The SPDX identifier of the license.
    pub identifier: Option<String>,
}

/// What a license holds, as mathematical values.
pub struct LicenseView {
    pub name: Option<Seq<char>>,
    pub identifier: Option<Seq<char>>,
}

impl DeepView for OpenCliLicense {
    type V = LicenseView;

    open spec fn deep_view(&self) -> LicenseView {
        LicenseView { name: self.name.deep_view(), identifier: self.identifier.deep_view() }
    }
}

impl View for OpenCliLicense {
    type V = LicenseView;

    open spec fn view(&self) -> LicenseView {
        self.deep_view()
    }
}

/// The license that a tree describes.
pub open spec fn decode_license(j: JsonView) -> Result<LicenseView, DecodeError> {
    let name = optional_text(j, Field::Name);
    let identifier = optional_text(j, Field::Identifier);
    if !(j is Object) {
        Err(DecodeError::NotAnObject)
    } else if name is Err {
        Err(name->Err_0)
    } else if identifier is Err {
        Err(identifier->Err_0)
    } else {
        Ok(LicenseView { name: name->Ok_0, identifier: identifier->Ok_0 })
    }
}

/// The tree that is written for a license.
pub open spec fn encode_license(l: LicenseView) -> JsonView {
    let j = empty_object();
    let j = with_optional(j, Field::Name, optional_text_json(l.name));
    with_optional(j, Field::Identifier, optional_text_json(l.identifier))
}

impl Clone for OpenCliLicense {
    fn clone(&self) -> (r: Self)
        ensures
            r@ == self@,
    {
        OpenCliLicense {
            name: self.name.clone(),
            identifier: self.identifier.clone(),
        }
    }
}

impl OpenCliLicense {
    /// Reads a license from a tree.
    pub fn from_value(v: &serde_json::Value) -> (r: Result<Self, DecodeError>)
        ensures
            deep(r) == decode_license(json_view(*v)),
    {
        if !json_is_object(v) {
            return Err(DecodeError::NotAnObject);
        }
        let name = read_optional_text(v, Field::Name)?;
        let identifier = read_optional_text(v, Field::Identifier)?;
        Ok(OpenCliLicense { name, identifier })
    }

    /// Writes the license as a tree.
    pub fn to_value(&self) -> (r: serde_json::Value)
        ensures
            json_view(r) == encode_license(self@),
    {
        let mut obj = json_object();
        put_optional_text(&mut obj, Field::Name, &self.name);
        put_optional_text(&mut obj, Field::Identifier, &self.identifier);
        obj
    }
}

/// How the described program reads its command line. An absent member
/// leaves the convention open; it does not mean `false` or empty.
#[derive(Debug, PartialEq)]
pub struct OpenCliConventions {
    /// Whether short options may be grouped behind one dash.
    pub group_options: Option<bool>,
    /// What stands between an option and its argument.
    pub option_argument_separator: Option<String>,
}

/// What the conventions hold, as mathematical values.
pub struct ConventionsView {
    pub group_options: Option<bool>,
    pub option_argument_separator: Option<Seq<char>>,
}

impl DeepView for OpenCliConventions {
    type V = ConventionsView;

    open spec fn deep_view(&self) -> ConventionsView {
        ConventionsView {
            group_options: self.group_options,
            option_argument_separator: self.option_argument_separator.deep_view(),
        }
    }
}

impl View for OpenCliConventions {
    type V = ConventionsView;

    open spec fn view(&self) -> ConventionsView {
        self.deep_view()
    }
}

/// The conventions that a tree describes.
pub open spec fn decode_conventions(j: JsonView) -> Result<ConventionsView, DecodeError> {
    let group_options = optional_flag(j, Field::GroupOptions);
    let separator = optional_text(j, Field::OptionArgumentSeparator);
    if !(j is Object) {
        Err(DecodeError::NotAnObject)
    } else if group_options is Err {
        Err(group_options->Err_0)
    } else if separator is Err {
        Err(separator->Err_0)
    } else {
        Ok(
            ConventionsView {
                group_options: group_options->Ok_0,
                option_argument_separator: separator->Ok_0,
            },
        )
    }
}

/// The tree that is written for conventions.
pub open spec fn encode_conventions(c: ConventionsView) -> JsonView {
    let j = empty_object();
    let j = with_optional(j, Field::GroupOptions, optional_flag_json(c.group_options));
    with_optional(
        j,
        Field::OptionArgumentSeparator,
        optional_text_json(c.option_argument_separator),
    )
}

impl Clone for OpenCliConventions {
    fn clone(&self) -> (r: Self)
        ensures
            r@ == self@,
    {
        OpenCliConventions {
            group_options: self.group_options,
            option_argument_separator: self.option_argument_separator.clone(),
        }
    }
}

impl OpenCliConventions {
    /// Reads conventions from a tree.
    pub fn from_value(v: &serde_json::Value) -> (r: Result<Self, DecodeError>)
        ensures
            deep(r) == decode_conventions(json_view(*v)),
    {
        if !json_is_object(v) {
            return Err(DecodeError::NotAnObject);
        }
        let group_options = read_optional_flag(v, Field::GroupOptions)?;
        let option_argument_separator = read_optional_text(v, Field::OptionArgumentSeparator)?;
        Ok(OpenCliConventions { group_options, option_argument_separator })
    }

    /// Writes the conventions as a tree.
    pub fn to_value(&self) -> (r: serde_json::Value)
        ensures
            json_view(r) == encode_conventions(self@),
    {
        let mut obj = json_object();
        put_optional_flag(&mut obj, Field::GroupOptions, self.group_options);
        put_optional_text(
            &mut obj,
            Field::OptionArgumentSeparator,
            &self.option_argument_separator,
        );
        obj
    }
}

/// The identity of the described program.
#[derive(Debug, PartialEq)]
pub struct OpenCliInfo {
    /// The application title.
    pub title: String,
    /// A short summary of the application.
    pub summary: Option<String>,
    /// A description of the application.
    pub description: Option<String>,
    /// Whom to contact about it.
    pub contact: Option<OpenCliContact>,
    /// The application license.
    pub license: Option<OpenCliLicense>,
    /// The application version.
    pub version: String,
}

/// What an identity holds, as mathematical values.
pub struct InfoView {
    pub title: Seq<char>,
    pub summary: Option<Seq<char>>,
    pub description: Option<Seq<char>>,
    pub contact: Option<ContactView>,
    pub license: Option<LicenseView>,
    pub version: Seq<char>,
}

impl DeepView for OpenCliInfo {
    type V = InfoView;

    open spec fn deep_view(&self) -> InfoView {
        InfoView {
            title: self.title@,
            summary: self.summary.deep_view(),
            description: self.description.deep_view(),
            contact: self.contact.deep_view(),
            license: self.license.deep_view(),
            version: self.version@,
        }
    }
}

impl View for OpenCliInfo {
    type V = InfoView;

    open spec fn view(&self) -> InfoView {
        self.deep_view()
    }
}

/// The identity that a tree describes. `title` and `version` are required.
pub open spec fn decode_info(j: JsonView) -> Result<InfoView, DecodeError> {
    let title = required_text(j, Field::Title);
    let summary = optional_text(j, Field::Summary);
    let description = optional_text(j, Field::Description);
    let contact = optional_record(j, Field::Contact, |x: JsonView| decode_contact(x));
    let license = optional_record(j, Field::License, |x: JsonView| decode_license(x));
    let version = required_text(j, Field::Version);
    if !(j is Object) {
        Err(DecodeError::NotAnObject)
    } else if title is Err {
        Err(title->Err_0)
    } else if summary is Err {
        Err(summary->Err_0)
    } else if description is Err {
        Err(description->Err_0)
    } else if contact is Err {
        Err(contact->Err_0)
    } else if license is Err {
        Err(license->Err_0)
    } else if version is Err {
        Err(version->Err_0)
    } else {
        Ok(
            InfoView {
                title: title->Ok_0,
                summary: summary->Ok_0,
                description: description->Ok_0,
                contact: contact->Ok_0,
                license: license->Ok_0,
                version: version->Ok_0,
            },
        )
    }
}

/// The tree of a contact, where there is one.
pub open spec fn optional_contact_json(c: Option<ContactView>) -> Option<JsonView> {
    match c {
        Some(x) => Some(encode_contact(x)),
        None => None,
    }
}

/// The tree of a license, where there is one.
pub open spec fn optional_license_json(l: Option<LicenseView>) -> Option<JsonView> {
    match l {
        Some(x) => Some(encode_license(x)),
        None => None,
    }
}

/// The tree that is written for an identity.
pub open spec fn encode_info(i: InfoView) -> JsonView {
    let j = empty_object();
    let j = with(j, Field::Title, text_json(i.title));
    let j = with_optional(j, Field::Summary, optional_text_json(i.summary));
    let j = with_optional(j, Field::Description, optional_text_json(i.description));
    let j = with_optional(j, Field::Contact, optional_contact_json(i.contact));
    let j = with_optional(j, Field::License, optional_license_json(i.license));
    with(j, Field::Version, text_json(i.version))
}

impl Clone for OpenCliInfo {
    fn clone(&self) -> (r: Self)
        ensures
            r@ == self@,
    {
        OpenCliInfo {
            title: self.title.clone(),
            summary: self.summary.clone(),
            description: self.description.clone(),
            contact: self.contact.clone(),
            license: self.license.clone(),
            version: self.version.clone(),
        }
    }
}

impl OpenCliInfo {
    /// Reads an identity from a tree.
    pub fn from_value(v: &serde_json::Value) -> (r: Result<Self, DecodeError>)
        ensures
            deep(r) == decode_info(json_view(*v)),
    {
        if !json_is_object(v) {
            return Err(DecodeError::NotAnObject);
        }
        let title = read_required_text(v, Field::Title)?;
        let summary = read_optional_text(v, Field::Summary)?;
        let description = read_optional_text(v, Field::Description)?;
        let contact = match read_member(v, Field::Contact) {
            None => None,
            Some(m) => if json_is_null(m) {
                None
            } else {
                Some(OpenCliContact::from_value(m)?)
            },
        };
        let license = match read_member(v, Field::License) {
            None => None,
            Some(m) => if json_is_null(m) {
                None
            } else {
                Some(OpenCliLicense::from_value(m)?)
            },
        };
        let version = read_required_text(v, Field::Version)?;
        Ok(OpenCliInfo { title, summary, description, contact, license, version })
    }

    /// Writes the identity as a tree.
    pub fn to_value(&self) -> (r: serde_json::Value)
        ensures
            json_view(r) == encode_info(self@),
    {
        let mut obj = json_object();
        put_text(&mut obj, Field::Title, self.title.as_str());
        put_optional_text(&mut obj, Field::Summary, &self.summary);
        put_optional_text(&mut obj, Field::Description, &self.description);
        let contact = match &self.contact {
            Some(c) => Some(c.to_value()),
            None => None,
        };
        put_optional(&mut obj, Field::Contact, contact);
        let license = match &self.license {
            Some(l) => Some(l.to_value()),
            None => None,
        };
        put_optional(&mut obj, Field::License, license);
        put_text(&mut obj, Field::Version, self.version.as_str());
        obj
    }
}

} // verus!
