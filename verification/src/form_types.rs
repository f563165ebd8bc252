//! The kinds of form controls and of autocomplete hints, each with its
//! HTML attribute string.

use vstd::prelude::*;

verus! {

/// The kind of a form control.
#[derive(Clone, PartialEq)]
pub enum FormControlType {
    /// Simple text control.
    Text,
    /// Text area with optional rows and columns.
    TextArea { cols: Option<u32>, rows: Option<u32> },
    /// Email with an optional pattern (a regular expression).
    Email { pattern: Option<String> },
    /// Password whose value is obscured.
    Password,
    /// Url with an optional pattern (a regular expression).
    Url { pattern: Option<String> },
    /// Number with optional minimum and maximum.
    Number { min: Option<u32>, max: Option<u32> },
    /// Range selection from `min` to `max`, with an optional step.
    Range { min: i32, max: i32, step: Option<u32> },
    /// Selection of one or more options.
    Select,
    /// Checkbox.
    Checkbox,
    /// Radio button.
    Radio,
    /// Date picker, format YYYY-mm-dd.
    Date,
    /// Date picker with optional bounds, format YYYY-mm-dd.
    DateMinMax { min: Option<String>, max: Option<String> },
    /// Local date and time, format YYYY-mm-ddTHH:MM.
    Datetime,
    /// Local date and time with optional bounds, format YYYY-mm-ddTHH:MM.
    DatetimeMinMax { min: Option<String>, max: Option<String> },
    /// Time, format HH:MM.
    Time,
    /// Time with optional bounds, format HH:MM.
    TimeMinMax { min: Option<String>, max: Option<String> },
    /// Color picker.
    Color,
    /// File input; `accept` lists the accepted formats.
    File { accept: Vec<String> },
    /// Hidden input, used to transmit data.
    Hidden,
    /// Submit button.
    Submit,
}

/// The HTML `type` attribute of each control kind. A text area carries
/// no type attribute and maps to the empty string.
pub open spec fn form_control_type_str(t: FormControlType) -> Seq<char> {
    match t {
        FormControlType::Checkbox => "checkbox"@,
        FormControlType::Color => "color"@,
        FormControlType::Date => "date"@,
        FormControlType::DateMinMax { .. } => "date"@,
        FormControlType::Datetime => "datetime-local"@,
        FormControlType::DatetimeMinMax { .. } => "datetime-local"@,
        FormControlType::Email { .. } => "email"@,
        FormControlType::File { .. } => "file"@,
        FormControlType::Hidden => "hidden"@,
        FormControlType::Number { .. } => "number"@,
        FormControlType::Password => "password"@,
        FormControlType::Radio => "radio"@,
        FormControlType::Range { .. } => "range"@,
        FormControlType::Select => "select"@,
        FormControlType::Submit => "submit"@,
        FormControlType::Text => "text"@,
        FormControlType::TextArea { .. } => ""@,
        FormControlType::Time => "time"@,
        FormControlType::TimeMinMax { .. } => "time"@,
        FormControlType::Url { .. } => "url"@,
    }
}

impl FormControlType {
    /// The HTML `type` attribute of this control kind.
    pub fn to_str(&self) -> (r: &'static str)
        ensures
            r@ == form_control_type_str(*self),
    {
        match self {
            FormControlType::Checkbox => "checkbox",
            FormControlType::Color => "color",
            FormControlType::Date | FormControlType::DateMinMax { .. } => "date",
            FormControlType::Datetime | FormControlType::DatetimeMinMax { .. } => "datetime-local",
            FormControlType::Email { .. } => "email",
            FormControlType::File { .. } => "file",
            FormControlType::Hidden => "hidden",
            FormControlType::Number { .. } => "number",
            FormControlType::Password => "password",
            FormControlType::Radio => "radio",
            FormControlType::Range { .. } => "range",
            FormControlType::Select => "select",
            FormControlType::Submit => "submit",
            FormControlType::Text => "text",
            FormControlType::TextArea { .. } => "",
            FormControlType::Time | FormControlType::TimeMinMax { .. } => "time",
            FormControlType::Url { .. } => "url",
        }
    }
}

/// Autocomplete hints for a person's name.
#[derive(Clone, Copy, PartialEq, Eq, Structural, Debug)]
pub enum AutocompleteNameType {
    /// The full name.
    FullName,
    /// The prefix or title, such as "Dr.".
    HonorificPrefix,
    /// The given (first) name.
    GivenName,
    /// The middle name.
    AdditionalName,
    /// The family (last) name.
    FamilyName,
    /// The suffix, such as "PhD.".
    HonorificSuffix,
    /// A nickname or handle.
    Nickname,
}

/// Autocomplete hints for a shipping or billing address.
#[derive(Clone, Copy, PartialEq, Eq, Structural, Debug)]
pub enum AutocompleteAddressType {
    StreetAddress,
    AddressLevel2,
}

/// Autocomplete hints for password fields.
#[derive(Clone, Copy, PartialEq, Eq, Structural, Debug)]
pub enum AutocompletePasswordType {
    /// A new password, for account creation or password change.
    NewPassword,
    /// The user's current password.
    CurrentPassword,
}

/// Autocomplete hints for telephone numbers and their parts.
#[derive(Clone, Copy, PartialEq, Eq, Structural, Debug)]
pub enum AutocompleteTelType {
    /// A full telephone number, including the country code.
    Tel,
    /// The country code.
    TelCountryCode,
    /// The entire number without the country code.
    TelNational,
    /// The area code.
    TelAreaCode,
    /// The number without country or area code.
    TelLocal,
    /// The exchange part of the local number.
    TelLocalPrefix,
    /// The within-exchange part of the local number.
    TelLocalSuffix,
    /// An extension code within the number.
    TelExtension,
}

/// The HTML autocomplete hint of a form control.
#[derive(Clone, Copy, PartialEq, Eq, Structural, Debug)]
pub enum FormAutocompleteType {
    /// The browser may not enter or select a value automatically.
    Off,
    /// The browser is allowed to complete the input as it judges best.
    On,
    /// A part of a person's name.
    Name { value: AutocompleteNameType },
    /// An email address.
    Email,
    /// A username or account name.
    Username,
    /// A password field.
    Password { value: AutocompletePasswordType },
    /// A one-time password for verifying user identity.
    OTP,
    /// A job title within an organization.
    OrganizationTitle,
    /// A company or organization name.
    Organization,
    /// A full street address within its locality.
    StreetAddress,
    /// A part of the shipping address.
    ShippingAddress { value: AutocompleteAddressType },
    /// A part of the billing address.
    BillingAddress { value: AutocompleteAddressType },
    /// First line of the street address.
    AddressLine1,
    /// Second line of the street address.
    AddressLine2,
    /// Third line of the street address.
    AddressLine3,
    /// The finest-grained administrative level.
    AddressLevel4,
    /// The third administrative level.
    AddressLevel3,
    /// The second administrative level, typically the city or town.
    AddressLevel2,
    /// The first administrative level, typically the province or state.
    AddressLevel1,
    /// A country or territory code.
    Country,
    /// A country or territory name.
    CountryName,
    /// A postal code.
    PostalCode,
    /// The full name on a payment instrument.
    CcName,
    /// The given name on a payment instrument.
    CcGivenName,
    /// The middle name on a payment instrument.
    CcAdditionalName,
    /// The family name on a payment instrument.
    CcFamilyName,
    /// The number identifying a payment method.
    CcNumber,
    /// A payment method expiration date.
    CcExp,
    /// The month of the expiration date.
    CcExpMonth,
    /// The year of the expiration date.
    CcExpYear,
    /// The security code of the payment instrument.
    CcCsc,
    /// The type of payment instrument.
    CcType,
    /// The currency of the transaction.
    TransactionCurrency,
    /// The amount of the transaction.
    TransactionAmount,
    /// A preferred language, as a language tag.
    Language,
    /// A birth date, as a full date.
    Bday,
    /// The day of the month of a birth date.
    BdayDay,
    /// The month of the year of a birth date.
    BdayMonth,
    /// The year of a birth date.
    BdayYear,
    /// A gender identity, as freeform text.
    Sex,
    /// A telephone number or a part of one.
    Tel { value: AutocompleteTelType },
    /// An instant-messaging protocol endpoint.
    Impp,
    /// A URL, such as a home page.
    Url,
    /// The URL of an image representing the person or company.
    Photo,
    /// Passkeys generated by the Web Authentication API.
    Webauthn,
}

/// The HTML `autocomplete` attribute value of each hint.
pub open spec fn form_autocomplete_type_str(t: FormAutocompleteType) -> Seq<char> {
    match t {
        FormAutocompleteType::Off => "off"@,
        FormAutocompleteType::On => "on"@,
        FormAutocompleteType::Name { value } => match value {
            AutocompleteNameType::FullName => "name"@,
            AutocompleteNameType::HonorificPrefix => "honorific-prefix"@,
            AutocompleteNameType::GivenName => "given-name"@,
            AutocompleteNameType::AdditionalName => "additional-name"@,
            AutocompleteNameType::FamilyName => "family-name"@,
            AutocompleteNameType::HonorificSuffix => "honorific-suffix"@,
            AutocompleteNameType::Nickname => "nickname"@,
        },
        FormAutocompleteType::Email => "email"@,
        FormAutocompleteType::Username => "username"@,
        FormAutocompleteType::Password { value } => match value {
            AutocompletePasswordType::NewPassword => "new-password"@,
            AutocompletePasswordType::CurrentPassword => "current-password"@,
        },
        FormAutocompleteType::OTP => "one-time-code"@,
        FormAutocompleteType::OrganizationTitle => "organization-title"@,
        FormAutocompleteType::Organization => "organization"@,
        FormAutocompleteType::StreetAddress => "street-address"@,
        FormAutocompleteType::ShippingAddress { value } => match value {
            AutocompleteAddressType::StreetAddress => "shipping street-address"@,
            AutocompleteAddressType::AddressLevel2 => "shipping address-level2"@,
        },
        FormAutocompleteType::BillingAddress { value } => match value {
            AutocompleteAddressType::StreetAddress => "billing street-address"@,
            AutocompleteAddressType::AddressLevel2 => "billing address-level2"@,
        },
        FormAutocompleteType::AddressLine1 => "address-line1"@,
        FormAutocompleteType::AddressLine2 => "address-line2"@,
        FormAutocompleteType::AddressLine3 => "address-line3"@,
        FormAutocompleteType::AddressLevel4 => "address-level4"@,
        FormAutocompleteType::AddressLevel3 => "address-level3"@,
        FormAutocompleteType::AddressLevel2 => "address-level2"@,
        FormAutocompleteType::AddressLevel1 => "address-level1"@,
        FormAutocompleteType::Country => "country"@,
        FormAutocompleteType::CountryName => "country-name"@,
        FormAutocompleteType::PostalCode => "postal-code"@,
        FormAutocompleteType::CcName => "cc-name"@,
        FormAutocompleteType::CcGivenName => "cc-given-name"@,
        FormAutocompleteType::CcAdditionalName => "cc-additional-name"@,
        FormAutocompleteType::CcFamilyName => "cc-family-name"@,
        FormAutocompleteType::CcNumber => "cc-number"@,
        FormAutocompleteType::CcExp => "cc-exp"@,
        FormAutocompleteType::CcExpMonth => "cc-exp-month"@,
        FormAutocompleteType::CcExpYear => "cc-exp-year"@,
        FormAutocompleteType::CcCsc => "cc-csc"@,
        FormAutocompleteType::CcType => "cc-type"@,
        FormAutocompleteType::TransactionCurrency => "transaction-currency"@,
        FormAutocompleteType::TransactionAmount => "transaction-amount"@,
        FormAutocompleteType::Language => "language"@,
        FormAutocompleteType::Bday => "bday"@,
        FormAutocompleteType::BdayDay => "bday-day"@,
        FormAutocompleteType::BdayMonth => "bday-month"@,
        FormAutocompleteType::BdayYear => "bday-year"@,
        FormAutocompleteType::Sex => "sex"@,
        FormAutocompleteType::Tel { value } => match value {
            AutocompleteTelType::Tel => "tel"@,
            AutocompleteTelType::TelCountryCode => "tel-country-code"@,
            AutocompleteTelType::TelNational => "tel-national"@,
            AutocompleteTelType::TelAreaCode => "tel-area-code"@,
            AutocompleteTelType::TelLocal => "tel-local"@,
            AutocompleteTelType::TelLocalPrefix => "tel-local-prefix"@,
            AutocompleteTelType::TelLocalSuffix => "tel-local-suffix"@,
            AutocompleteTelType::TelExtension => "tel-extension"@,
        },
        FormAutocompleteType::Impp => "impp"@,
        FormAutocompleteType::Url => "url"@,
        FormAutocompleteType::Photo => "photo"@,
        FormAutocompleteType::Webauthn => "webauthn"@,
    }
}

impl FormAutocompleteType {
    /// The HTML `autocomplete` attribute value of this hint.
    pub fn to_str(&self) -> (r: &'static str)
        ensures
            r@ == form_autocomplete_type_str(*self),
    {
        match self {
            FormAutocompleteType::Off => "off",
            FormAutocompleteType::On => "on",
            FormAutocompleteType::Name { value } => match value {
                AutocompleteNameType::FullName => "name",
                AutocompleteNameType::HonorificPrefix => "honorific-prefix",
                AutocompleteNameType::GivenName => "given-name",
                AutocompleteNameType::AdditionalName => "additional-name",
                AutocompleteNameType::FamilyName => "family-name",
                AutocompleteNameType::HonorificSuffix => "honorific-suffix",
                AutocompleteNameType::Nickname => "nickname",
            },
            FormAutocompleteType::Email => "email",
            FormAutocompleteType::Username => "username",
            FormAutocompleteType::Password { value } => match value {
                AutocompletePasswordType::NewPassword => "new-password",
                AutocompletePasswordType::CurrentPassword => "current-password",
            },
            FormAutocompleteType::OTP => "one-time-code",
            FormAutocompleteType::OrganizationTitle => "organization-title",
            FormAutocompleteType::Organization => "organization",
            FormAutocompleteType::StreetAddress => "street-address",
            FormAutocompleteType::ShippingAddress { value } => match value {
                AutocompleteAddressType::StreetAddress => "shipping street-address",
                AutocompleteAddressType::AddressLevel2 => "shipping address-level2",
            },
            FormAutocompleteType::BillingAddress { value } => match value {
                AutocompleteAddressType::StreetAddress => "billing street-address",
                AutocompleteAddressType::AddressLevel2 => "billing address-level2",
            },
            FormAutocompleteType::AddressLine1 => "address-line1",
            FormAutocompleteType::AddressLine2 => "address-line2",
            FormAutocompleteType::AddressLine3 => "address-line3",
            FormAutocompleteType::AddressLevel4 => "address-level4",
            FormAutocompleteType::AddressLevel3 => "address-level3",
            FormAutocompleteType::AddressLevel2 => "address-level2",
            FormAutocompleteType::AddressLevel1 => "address-level1",
            FormAutocompleteType::Country => "country",
            FormAutocompleteType::CountryName => "country-name",
            FormAutocompleteType::PostalCode => "postal-code",
            FormAutocompleteType::CcName => "cc-name",
            FormAutocompleteType::CcGivenName => "cc-given-name",
            FormAutocompleteType::CcAdditionalName => "cc-additional-name",
            FormAutocompleteType::CcFamilyName => "cc-family-name",
            FormAutocompleteType::CcNumber => "cc-number",
            FormAutocompleteType::CcExp => "cc-exp",
            FormAutocompleteType::CcExpMonth => "cc-exp-month",
            FormAutocompleteType::CcExpYear => "cc-exp-year",
            FormAutocompleteType::CcCsc => "cc-csc",
            FormAutocompleteType::CcType => "cc-type",
            FormAutocompleteType::TransactionCurrency => "transaction-currency",
            FormAutocompleteType::TransactionAmount => "transaction-amount",
            FormAutocompleteType::Language => "language",
            FormAutocompleteType::Bday => "bday",
            FormAutocompleteType::BdayDay => "bday-day",
            FormAutocompleteType::BdayMonth => "bday-month",
            FormAutocompleteType::BdayYear => "bday-year",
            FormAutocompleteType::Sex => "sex",
            FormAutocompleteType::Tel { value } => match value {
                AutocompleteTelType::Tel => "tel",
                AutocompleteTelType::TelCountryCode => "tel-country-code",
                AutocompleteTelType::TelNational => "tel-national",
                AutocompleteTelType::TelAreaCode => "tel-area-code",
                AutocompleteTelType::TelLocal => "tel-local",
                AutocompleteTelType::TelLocalPrefix => "tel-local-prefix",
                AutocompleteTelType::TelLocalSuffix => "tel-local-suffix",
                AutocompleteTelType::TelExtension => "tel-extension",
            },
            FormAutocompleteType::Impp => "impp",
            FormAutocompleteType::Url => "url",
            FormAutocompleteType::Photo => "photo",
            FormAutocompleteType::Webauthn => "webauthn",
        }
    }
}

} // verus!
