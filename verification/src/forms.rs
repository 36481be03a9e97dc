//! The description of the login and registration forms that a page template
//! is filled with. The year shown below a form is the caller's to read.

use vstd::prelude::*;
use vstd::string::StringExecFns;

verus! {

/// One input of a form.
#[derive(Debug, PartialEq, Eq)]
pub struct LogRegFormField {
    pub id: String,
    pub text: String,
    pub field_type: String,
    pub placeholder: String,
}

/// A form: its title, where and how it is sent, its inputs in order, and the
/// year shown below it.
#[derive(Debug, PartialEq, Eq)]
pub struct LogRegForm {
    pub title: String,
    pub action: String,
    pub method: String,
    pub fields: Vec<LogRegFormField>,
    pub year: i32,
}

/// The texts of a `LogRegFormField`.
pub struct FormFieldData {
    pub id: Seq<char>,
    pub text: Seq<char>,
    pub field_type: Seq<char>,
    pub placeholder: Seq<char>,
}

/// The texts of a `LogRegForm`.
pub struct FormData {
    pub title: Seq<char>,
    pub action: Seq<char>,
    pub method: Seq<char>,
    pub fields: Seq<FormFieldData>,
    pub year: i32,
}

impl View for LogRegFormField {
    type V = FormFieldData;

    open spec fn view(&self) -> FormFieldData {
        FormFieldData {
            id: self.id@,
            text: self.text@,
            field_type: self.field_type@,
            placeholder: self.placeholder@,
        }
    }
}

impl View for LogRegForm {
    type V = FormData;

    open spec fn view(&self) -> FormData {
        FormData {
            title: self.title@,
            action: self.action@,
            method: self.method@,
            fields: self.fields@.map_values(|field: LogRegFormField| field@),
            year: self.year,
        }
    }
}

pub open spec fn email_field() -> FormFieldData {
    FormFieldData {
        id: "email"@,
        text: "Email"@,
        field_type: "email"@,
        placeholder: "Please enter a valid email."@,
    }
}

pub open spec fn password_field() -> FormFieldData {
    FormFieldData {
        id: "password"@,
        text: "Password"@,
        field_type: "password"@,
        placeholder: "Please enter a valid password."@,
    }
}

pub open spec fn first_name_field() -> FormFieldData {
    FormFieldData {
        id: "first_name"@,
        text: "First Name"@,
        field_type: "first_name"@,
        placeholder: "Please enter your first name."@,
    }
}

pub open spec fn last_name_field() -> FormFieldData {
    FormFieldData {
        id: "last_name"@,
        text: "Last Name"@,
        field_type: "last_name"@,
        placeholder: "Please enter your last name."@,
    }
}

pub open spec fn confirm_password_field() -> FormFieldData {
    FormFieldData {
        id: "confirm_password"@,
        text: "Confirm Password"@,
        field_type: "password"@,
        placeholder: "Please confirm your password."@,
    }
}

/// The inputs of the form with the given title: the form titled `Register`
/// asks for both names before, and for the confirmation after, what every form
/// asks for.
pub open spec fn form_fields(title: Seq<char>) -> Seq<FormFieldData> {
    if title == "Register"@ {
        seq![
            first_name_field(),
            last_name_field(),
            email_field(),
            password_field(),
            confirm_password_field(),
        ]
    } else {
        seq![email_field(), password_field()]
    }
}

/// The form with the given title, target, method and year.
pub open spec fn form_of(
    title: Seq<char>,
    action: Seq<char>,
    method: Seq<char>,
    year: i32,
) -> FormData {
    FormData { title, action, method, fields: form_fields(title), year }
}

impl LogRegFormField {
    pub fn new(id: &str, text: &str, field_type: &str, placeholder: &str) -> (field:
        LogRegFormField)
        ensures
            field@ == (FormFieldData {
                id: id@,
                text: text@,
                field_type: field_type@,
                placeholder: placeholder@,
            }),
    {
        LogRegFormField {
            id: String::from_str(id),
            text: String::from_str(text),
            field_type: String::from_str(field_type),
            placeholder: String::from_str(placeholder),
        }
    }
}

impl LogRegForm {
    /// The form with the given title, target and method, for the year that the
    /// caller has read from the clock.
    pub fn new(title: &str, action: &str, method: &str, year: i32) -> (form: LogRegForm)
        ensures
            form@ == form_of(title@, action@, method@, year),
    {
        let mut fields: Vec<LogRegFormField> = Vec::new();
        let register = String::from_str(title) == String::from_str("Register");
        if register {
            fields.push(
                LogRegFormField::new(
                    "first_name",
                    "First Name",
                    "first_name",
                    "Please enter your first name.",
                ),
            );
            fields.push(
                LogRegFormField::new(
                    "last_name",
                    "Last Name",
                    "last_name",
                    "Please enter your last name.",
                ),
            );
        }
        fields.push(
            LogRegFormField::new("email", "Email", "email", "Please enter a valid email."),
        );
        fields.push(
            LogRegFormField::new(
                "password",
                "Password",
                "password",
                "Please enter a valid password.",
            ),
        );
        if register {
            fields.push(
                LogRegFormField::new(
                    "confirm_password",
                    "Confirm Password",
                    "password",
                    "Please confirm your password.",
                ),
            );
        }
        let form = LogRegForm {
            title: String::from_str(title),
            action: String::from_str(action),
            method: String::from_str(method),
            fields,
            year,
        };
        assert(form@.fields =~= form_fields(title@));
        form
    }
}

} // verus!
