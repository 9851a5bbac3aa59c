//! From the declaration of an error type to its dispatch table.
//!
//! A declaration names the error type, gives the prefix under which its
//! codes live and lists its variants in order.  Deriving yields one arm per
//! variant, in the same order; classifying an error picks the arm of its
//! variant and builds the record from it.

use crate::info::{ErrorInfo, ErrorInfoView};
use std::fmt::Display;
use std::str::FromStr;
use vstd::prelude::*;
use vstd::string::to_string_from_display_ensures;

verus! {

/// How a variant carries its payload.
#[derive(Clone, Copy, Debug, PartialEq, Eq)]
pub enum Style {
    /// Positional fields.
    Tuple,
    /// Named fields.
    Struct,
    /// No payload.
    Unit,
}

/// One variant of an error type, as declared.
#[derive(Clone, Debug, PartialEq, Eq)]
pub struct EnumVariant {
    /// The variant's name.
    pub ident: String,
    /// The shape of its payload.
    pub style: Style,
    /// Its short code; a declaration that lacks one is incomplete.
    pub code: Option<String>,
    /// Its application status as text; empty where none was declared.
    pub app_code: String,
    /// Its message for clients; empty where none was declared.
    pub client_msg: String,
}

/// The body of a declared type.
#[derive(Clone, Debug, PartialEq, Eq)]
pub enum Data {
    /// An enum with its variants in declaration order.
    Enum(Vec<EnumVariant>),
    /// Anything that is not an enum.
    Struct,
}

/// The declaration of an error type.
#[derive(Clone, Debug, PartialEq, Eq)]
pub struct ErrorData {
    /// The type's name.
    pub ident: String,
    /// The prefix of all its codes.
    pub prefix: String,
    /// Its body.
    pub data: Data,
}

/// Why a declaration cannot be derived from.
#[derive(Clone, Copy, Debug, PartialEq, Eq)]
pub enum DeriveError {
    /// The declared type is not an enum.
    NotAnEnum,
    /// The variant at this position declares no code.
    MissingCode { variant: usize },
}

/// One arm of the dispatch: the pattern that matches a variant, and what the
/// record of such an error is built from.
#[derive(Clone, Debug, PartialEq, Eq)]
pub struct MatchArm {
    /// The pattern, as source text.
    pub pattern: String,
    /// The application status as text.
    pub app_code: String,
    /// The full code.
    pub code: String,
    /// The message for clients.
    pub client_msg: String,
}

/// What a [`MatchArm`] holds, as sequences of characters.
pub struct MatchArmView {
    pub pattern: Seq<char>,
    pub app_code: Seq<char>,
    pub code: Seq<char>,
    pub client_msg: Seq<char>,
}

impl View for MatchArm {
    type V = MatchArmView;

    open spec fn view(&self) -> MatchArmView {
        MatchArmView {
            pattern: self.pattern@,
            app_code: self.app_code@,
            code: self.code@,
            client_msg: self.client_msg@,
        }
    }
}

/// The dispatch table of an error type: one arm per variant, in declaration
/// order.
#[derive(Clone, Debug, PartialEq, Eq)]
pub struct Dispatch {
    pub arms: Vec<MatchArm>,
}

/// What follows the variant's path in a pattern: nothing for a variant
/// without payload, `(_)` for positional fields, `{..}` for named ones.
pub open spec fn payload_pattern(style: Style) -> Seq<char> {
    match style {
        Style::Unit => seq![],
        Style::Tuple => seq!['(', '_', ')'],
        Style::Struct => seq!['{', '.', '.', '}'],
    }
}

/// The pattern that matches every value of one variant, whatever its payload.
pub open spec fn pattern_text(name: Seq<char>, ident: Seq<char>, style: Style) -> Seq<char> {
    name + seq![':', ':'] + ident + payload_pattern(style)
}

impl EnumVariant {
    /// The arm for this variant of the type `name` whose codes start with
    /// `prefix`.
    pub open spec fn arm(&self, name: Seq<char>, prefix: Seq<char>) -> MatchArmView
        recommends
            self.code is Some,
    {
        MatchArmView {
            pattern: pattern_text(name, self.ident@, self.style),
            app_code: self.app_code@,
            code: prefix + self.code->0@,
            client_msg: self.client_msg@,
        }
    }
}

impl ErrorData {
    /// The declared variants; none where the type is not an enum.
    pub open spec fn variants(&self) -> Seq<EnumVariant> {
        match self.data {
            Data::Enum(variants) => variants@,
            Data::Struct => seq![],
        }
    }

    /// The type is an enum and each of its variants declares a code.
    pub open spec fn complete(&self) -> bool {
        &&& self.data is Enum
        &&& forall|i: int| 0 <= i < self.variants().len() ==> (#[trigger] self.variants()[i]).code is Some
    }

    /// `variant` is the first variant that declares no code.
    pub open spec fn first_without_code(&self, variant: int) -> bool {
        &&& 0 <= variant < self.variants().len()
        &&& self.variants()[variant].code is None
        &&& forall|i: int| 0 <= i < variant ==> (#[trigger] self.variants()[i]).code is Some
    }
}

impl DeriveError {
    /// This error is the one that `input` calls for: the type is not an
    /// enum, or the named variant is the first that declares no code.
    pub open spec fn explains(self, input: &ErrorData) -> bool {
        match self {
            DeriveError::NotAnEnum => input.data is Struct,
            DeriveError::MissingCode { variant } => input.first_without_code(variant as int),
        }
    }
}

impl Dispatch {
    /// This table is the one derived from `input`: it has the arm of each
    /// variant, in declaration order, and nothing else.
    pub open spec fn derived_from(&self, input: &ErrorData) -> bool {
        &&& self.arms@.len() == input.variants().len()
        &&& forall|i: int|
            0 <= i < self.arms@.len() ==> (#[trigger] self.arms@[i])@ == input.variants()[i].arm(
                input.ident@,
                input.prefix@,
            )
    }

    /// The record of an error of the variant at position `variant` whose
    /// diagnostic text is `server_msg`, given what parsing the arm's status
    /// gave.
    pub open spec fn classified<T>(
        &self,
        variant: int,
        app_code: Option<T>,
        server_msg: Seq<char>,
    ) -> Option<ErrorInfoView<T>>
        recommends
            0 <= variant < self.arms@.len(),
    {
        match app_code {
            Some(status) => Some(
                ErrorInfoView::build(
                    status,
                    self.arms@[variant].code@,
                    self.arms@[variant].client_msg@,
                    server_msg,
                ),
            ),
            None => None,
        }
    }
}

/// Derives the dispatch table of a declared error type.
///
/// Fails where the type is not an enum, and at the first variant that
/// declares no code.  Codes are not compared with one another: that they
/// differ is left to the declaration.
pub fn process_error_info(input: &ErrorData) -> (derived: Result<Dispatch, DeriveError>)
    ensures
        derived is Ok <==> input.complete(),
        derived matches Ok(dispatch) ==> dispatch.derived_from(input),
        derived matches Err(error) ==> error.explains(input),
{
    let variants = match &input.data {
        Data::Enum(variants) => variants,
        Data::Struct => {
            return Err(DeriveError::NotAnEnum);
        },
    };
    let mut arms: Vec<MatchArm> = Vec::new();
    let mut i: usize = 0;
    while i < variants.len()
        invariant
            i <= variants.len(),
            variants@ == input.variants(),
            input.data is Enum,
            arms@.len() == i,
            forall|j: int| 0 <= j < i ==> (#[trigger] variants@[j]).code is Some,
            forall|j: int|
                0 <= j < i ==> (#[trigger] arms@[j])@ == variants@[j].arm(
                    input.ident@,
                    input.prefix@,
                ),
        decreases variants.len() - i,
    {
        let variant = &variants[i];
        let short_code = match &variant.code {
            Some(code) => code,
            None => {
                return Err(DeriveError::MissingCode { variant: i });
            },
        };
        let mut code = input.prefix.clone();
        code.append(short_code.as_str());
        let arm = MatchArm {
            pattern: variant_pattern(input.ident.as_str(), variant.ident.as_str(), variant.style),
            app_code: variant.app_code.clone(),
            code,
            client_msg: variant.client_msg.clone(),
        };
        arms.push(arm);
        i += 1;
    }
    Ok(Dispatch { arms })
}

/// Writes the pattern that matches every value of the variant `ident` of the
/// type `name`.
pub fn variant_pattern(name: &str, ident: &str, style: Style) -> (pattern: String)
    ensures
        pattern@ == pattern_text(name@, ident@, style),
{
    proof {
        reveal_strlit("::");
        reveal_strlit("(_)");
        reveal_strlit("{..}");
    }
    let mut pattern = name.to_owned();
    pattern.append("::");
    pattern.append(ident);
    match style {
        Style::Unit => {},
        Style::Tuple => {
            pattern.append("(_)");
        },
        Style::Struct => {
            pattern.append("{..}");
        },
    }
    assert(pattern@ =~= pattern_text(name@, ident@, style));
    pattern
}

impl Dispatch {
    /// Builds the record of an error of the variant at position `variant`,
    /// for a status that has been parsed already, or nothing where parsing
    /// had failed.
    pub fn classify_parsed<T>(&self, variant: usize, app_code: Option<T>, server_msg: String) -> (info:
        Option<ErrorInfo<'_, T>>)
        requires
            variant < self.arms@.len(),
        ensures
            info is Some <==> app_code is Some,
            info matches Some(e) ==> Some(e@) == self.classified(
                variant as int,
                app_code,
                server_msg@,
            ),
            info matches Some(e) ==> e@.wf(),
            info matches Some(e) ==> e.server_msg == server_msg,
    {
        let arm = &self.arms[variant];
        ErrorInfo::from_parsed(app_code, arm.code.as_str(), arm.client_msg.as_str(), server_msg)
    }

    /// Classifies an error of the variant at position `variant`: builds its
    /// record from the variant's arm, with the error's own rendering as the
    /// diagnostic text.
    ///
    /// Returns `None` where the status type rejects the arm's status.
    pub fn classify<T: FromStr, D: Display + ?Sized>(&self, variant: usize, error: &D) -> (info:
        Option<ErrorInfo<'_, T>>)
        requires
            variant < self.arms@.len(),
        ensures
            info matches Some(e) ==> to_string_from_display_ensures::<D>(error, e.server_msg),
            info matches Some(e) ==> Some(e@) == self.classified(
                variant as int,
                Some(e.app_code),
                e.server_msg@,
            ),
            info matches Some(e) ==> e@.wf(),
    {
        let arm = &self.arms[variant];
        ErrorInfo::new(arm.app_code.as_str(), arm.code.as_str(), arm.client_msg.as_str(), error)
    }
}

/// Every declared variant has its arm: in the table derived from a
/// declaration, an error of any variant is classified once its status has
/// been parsed, whatever its diagnostic text.
pub proof fn lemma_every_variant_classifies<T>(
    input: &ErrorData,
    dispatch: &Dispatch,
    variant: int,
    status: T,
    server_msg: Seq<char>,
)
    requires
        dispatch.derived_from(input),
        0 <= variant < input.variants().len(),
    ensures
        variant < dispatch.arms@.len(),
        dispatch.classified(variant, Some(status), server_msg) is Some,
{
}

/// The code of a record is the declared prefix followed at once by the code
/// of the error's variant.
pub proof fn lemma_code_is_prefix_then_variant_code<T>(
    input: &ErrorData,
    dispatch: &Dispatch,
    variant: int,
    status: T,
    server_msg: Seq<char>,
)
    requires
        input.complete(),
        dispatch.derived_from(input),
        0 <= variant < input.variants().len(),
    ensures
        dispatch.classified(variant, Some(status), server_msg)->0.code == input.prefix@
            + input.variants()[variant].code->0@,
{
    assert(dispatch.arms@[variant]@ == input.variants()[variant].arm(input.ident@, input.prefix@));
}

} // verus!
