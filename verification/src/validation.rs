//! Field validations: the rules that validation attributes declare, and the
//! validator each rule runs.
use vstd::prelude::*;
use crate::model::rust_type::{last_ident_spec, RustType, RustTypeView};
use crate::text::text_is;

verus! {

/// `#[NotNull(message = ...)]`.
pub struct NotNullAttribute {
    pub message: Option<String>,
}

/// `#[Size(min = ..., max = ..., message = ...)]`.
pub struct SizeAttribute {
    pub min: Option<usize>,
    pub max: Option<usize>,
    pub message: Option<String>,
}

/// `#[Pattern(pattern = ..., message = ...)]`.
pub struct PatternAttribute {
    pub pattern: String,
    pub message: Option<String>,
}

/// `#[Email(message = ...)]`.
pub struct EmailAttribute {
    pub message: Option<String>,
}

/// A field of a struct that derives validation, with its validation attributes.
pub struct ValidationFieldInput {
    /// The field's name; `None` for a field of a tuple struct.
    pub ident: Option<String>,
    pub ty: RustType,
    pub not_null: Option<NotNullAttribute>,
    pub size: Option<SizeAttribute>,
    pub pattern: Option<PatternAttribute>,
    pub email: Option<EmailAttribute>,
}

/// What a validation checks.
pub enum ValidationType {
    NotNull,
    Size { min: Option<usize>, max: Option<usize> },
    Regex { pattern: String },
    Email,
}

/// A check with the message reported when it fails (empty for the default).
pub struct Validation {
    pub ty: ValidationType,
    pub message: String,
}

/// A validation of one field.
pub struct ValidationRule {
    pub ident: String,
    pub validation: Validation,
}

/// The view of a [`ValidationType`].
pub enum ValidationTypeView {
    NotNull,
    Size { min: Option<usize>, max: Option<usize> },
    Regex { pattern: Seq<char> },
    Email,
}

/// The view of a [`ValidationRule`].
pub struct ValidationRuleView {
    pub ident: Seq<char>,
    pub ty: ValidationTypeView,
    pub message: Seq<char>,
}

impl View for ValidationRule {
    type V = ValidationRuleView;

    open spec fn view(&self) -> ValidationRuleView {
        ValidationRuleView {
            ident: self.ident@,
            ty: match self.validation.ty {
                ValidationType::NotNull => ValidationTypeView::NotNull,
                ValidationType::Size { min, max } => ValidationTypeView::Size { min, max },
                ValidationType::Regex { pattern } => ValidationTypeView::Regex { pattern: pattern@ },
                ValidationType::Email => ValidationTypeView::Email,
            },
            message: self.validation.message@,
        }
    }
}

impl DeepView for ValidationRule {
    type V = ValidationRuleView;

    open spec fn deep_view(&self) -> ValidationRuleView {
        self@
    }
}

/// A message given, or the empty text.
pub open spec fn message_or_empty(m: Option<String>) -> Seq<char> {
    match m {
        Some(s) => s@,
        None => Seq::empty(),
    }
}

/// Whether a type is a path whose last segment is `String`.
pub open spec fn is_string_spec(t: RustTypeView) -> bool {
    last_ident_spec(t) == Some("String"@)
}

/// The rules of a field, in the order `NotNull`, `Size`, `Pattern`, `Email`,
/// or the error of an unnamed field or of a text rule on a type that is not
/// `String`.
pub open spec fn field_validations_spec(f: ValidationFieldInput) -> Result<
    Seq<ValidationRuleView>,
    Seq<char>,
> {
    match f.ident {
        None => Err("Field must have an identifier"@),
        Some(id) => {
            let s = is_string_spec(f.ty@);
            if f.size is Some && !s {
                Err("#[Size] is only supported for String types"@)
            } else if f.pattern is Some && !s {
                Err("#[Pattern] is only supported for String types"@)
            } else if f.email is Some && !s {
                Err("#[Email] is only supported for String types"@)
            } else {
                Ok(
                    (match f.not_null {
                        Some(a) => seq![
                            ValidationRuleView {
                                ident: id@,
                                ty: ValidationTypeView::NotNull,
                                message: message_or_empty(a.message),
                            },
                        ],
                        None => Seq::empty(),
                    }) + (match f.size {
                        Some(a) => seq![
                            ValidationRuleView {
                                ident: id@,
                                ty: ValidationTypeView::Size { min: a.min, max: a.max },
                                message: message_or_empty(a.message),
                            },
                        ],
                        None => Seq::empty(),
                    }) + (match f.pattern {
                        Some(a) => seq![
                            ValidationRuleView {
                                ident: id@,
                                ty: ValidationTypeView::Regex { pattern: a.pattern@ },
                                message: message_or_empty(a.message),
                            },
                        ],
                        None => Seq::empty(),
                    }) + (match f.email {
                        Some(a) => seq![
                            ValidationRuleView {
                                ident: id@,
                                ty: ValidationTypeView::Email,
                                message: message_or_empty(a.message),
                            },
                        ],
                        None => Seq::empty(),
                    }),
                )
            }
        },
    }
}

/// Whether a type is a path whose last segment is `String`.
pub fn is_string_type(t: &RustType) -> (r: bool)
    ensures
        r == is_string_spec(t@),
{
    match t {
        RustType::Path { segments, .. } => {
            if segments.len() > 0 {
                assert(segments.deep_view().last() == segments@.last()@);
                text_is(segments[segments.len() - 1].as_str(), "String")
            } else {
                false
            }
        },
        _ => false,
    }
}

fn message_of(m: &Option<String>) -> (r: String)
    ensures
        r@ == message_or_empty(*m),
{
    match m {
        Some(s) => s.clone(),
        None => String::new(),
    }
}

/// The validation rules of one field.
pub fn parse_field_validations(f: &ValidationFieldInput) -> (r: Result<Vec<ValidationRule>, String>)
    ensures
        match r {
            Ok(v) => field_validations_spec(*f) == Ok::<Seq<ValidationRuleView>, Seq<char>>(
                v.deep_view(),
            ),
            Err(e) => field_validations_spec(*f) == Err::<Seq<ValidationRuleView>, Seq<char>>(e@),
        },
{
    let ident = match &f.ident {
        Some(id) => id,
        None => {
            return Err(String::from_str("Field must have an identifier"));
        },
    };
    let mut rules: Vec<ValidationRule> = Vec::new();
    let ghost mut want: Seq<ValidationRuleView> = Seq::empty();
    match &f.not_null {
        Some(a) => {
            let rule = ValidationRule {
                ident: ident.clone(),
                validation: Validation { ty: ValidationType::NotNull, message: message_of(&a.message) },
            };
            proof {
                want = want.push(rule@);
            }
            rules.push(rule);
        },
        None => {},
    }
    let is_string = is_string_type(&f.ty);
    match &f.size {
        Some(a) => {
            if !is_string {
                return Err(String::from_str("#[Size] is only supported for String types"));
            }
            let rule = ValidationRule {
                ident: ident.clone(),
                validation: Validation {
                    ty: ValidationType::Size { min: a.min, max: a.max },
                    message: message_of(&a.message),
                },
            };
            proof {
                want = want.push(rule@);
            }
            rules.push(rule);
        },
        None => {},
    }
    match &f.pattern {
        Some(a) => {
            if !is_string {
                return Err(String::from_str("#[Pattern] is only supported for String types"));
            }
            let rule = ValidationRule {
                ident: ident.clone(),
                validation: Validation {
                    ty: ValidationType::Regex { pattern: a.pattern.clone() },
                    message: message_of(&a.message),
                },
            };
            proof {
                want = want.push(rule@);
            }
            rules.push(rule);
        },
        None => {},
    }
    match &f.email {
        Some(a) => {
            if !is_string {
                return Err(String::from_str("#[Email] is only supported for String types"));
            }
            let rule = ValidationRule {
                ident: ident.clone(),
                validation: Validation { ty: ValidationType::Email, message: message_of(&a.message) },
            };
            proof {
                want = want.push(rule@);
            }
            rules.push(rule);
        },
        None => {},
    }
    proof {
        assert(rules.deep_view() =~= want);
        match field_validations_spec(*f) {
            Ok(s) => {
                assert(s =~= want);
            },
            Err(_) => {},
        }
    }
    Ok(rules)
}

/// The rules of all fields in order, or the first field's error.
pub open spec fn validations_spec(fs: Seq<ValidationFieldInput>) -> Result<
    Seq<ValidationRuleView>,
    Seq<char>,
>
    decreases fs.len(),
{
    if fs.len() == 0 {
        Ok(Seq::empty())
    } else {
        match validations_spec(fs.drop_last()) {
            Err(e) => Err(e),
            Ok(acc) => match field_validations_spec(fs.last()) {
                Err(e) => Err(e),
                Ok(rs) => Ok(acc + rs),
            },
        }
    }
}

proof fn lemma_validation_error_persists(fs: Seq<ValidationFieldInput>, i: int, e: Seq<char>)
    requires
        0 <= i <= fs.len(),
        validations_spec(fs.take(i)) == Err::<Seq<ValidationRuleView>, Seq<char>>(e),
    ensures
        validations_spec(fs) == Err::<Seq<ValidationRuleView>, Seq<char>>(e),
    decreases fs.len() - i,
{
    if i < fs.len() {
        assert(fs.take(i + 1).drop_last() =~= fs.take(i));
        lemma_validation_error_persists(fs, i + 1, e);
    } else {
        assert(fs.take(i) =~= fs);
    }
}

/// The validation rules of a type: those of its fields in order; only a
/// struct derives validation.
pub fn parse_validation(is_struct: bool, fields: &Vec<ValidationFieldInput>) -> (r: Result<
    Vec<ValidationRule>,
    String,
>)
    ensures
        !is_struct ==> (r matches Err(e) && e@ == "Validation can only be derived on structs"@),
        is_struct ==> match r {
            Ok(v) => validations_spec(fields@) == Ok::<Seq<ValidationRuleView>, Seq<char>>(
                v.deep_view(),
            ),
            Err(e) => validations_spec(fields@) == Err::<Seq<ValidationRuleView>, Seq<char>>(e@),
        },
{
    if !is_struct {
        return Err(String::from_str("Validation can only be derived on structs"));
    }
    let mut all: Vec<ValidationRule> = Vec::new();
    let mut i: usize = 0;
    assert(fields@.take(0) =~= Seq::<ValidationFieldInput>::empty());
    assert(all.deep_view() =~= Seq::<ValidationRuleView>::empty());
    while i < fields.len()
        invariant
            is_struct,
            i <= fields.len(),
            validations_spec(fields@.take(i as int)) == Ok::<Seq<ValidationRuleView>, Seq<char>>(
                all.deep_view(),
            ),
        decreases fields.len() - i,
    {
        proof {
            assert(fields@.take(i + 1).drop_last() =~= fields@.take(i as int));
            assert(fields@.take(i + 1).last() == fields@[i as int]);
        }
        match parse_field_validations(&fields[i]) {
            Err(e) => {
                proof {
                    lemma_validation_error_persists(fields@, i + 1, e@);
                }
                return Err(e);
            },
            Ok(rules) => {
                let ghost before = all.deep_view();
                let mut k: usize = 0;
                while k < rules.len()
                    invariant
                        k <= rules.len(),
                        all.deep_view() == before + rules.deep_view().take(k as int),
                    decreases rules.len() - k,
                {
                    let r = &rules[k];
                    let copy = ValidationRule {
                        ident: r.ident.clone(),
                        validation: Validation {
                            ty: match &r.validation.ty {
                                ValidationType::NotNull => ValidationType::NotNull,
                                ValidationType::Size { min, max } => ValidationType::Size {
                                    min: *min,
                                    max: *max,
                                },
                                ValidationType::Regex { pattern } => ValidationType::Regex {
                                    pattern: pattern.clone(),
                                },
                                ValidationType::Email => ValidationType::Email,
                            },
                            message: r.validation.message.clone(),
                        },
                    };
                    assert(copy@ == rules.deep_view()[k as int]);
                    let ghost prev = all.deep_view();
                    all.push(copy);
                    assert(all.deep_view() =~= prev.push(copy@));
                    k = k + 1;
                    assert(all.deep_view() =~= before + rules.deep_view().take(k as int));
                }
                assert(rules.deep_view().take(rules.len() as int) =~= rules.deep_view());
            },
        }
        i = i + 1;
    }
    assert(fields@.take(fields.len() as int) =~= fields@);
    Ok(all)
}

/// The pattern an `#[Email]` validation checks addresses against.
pub const EMAIL_PATTERN: &'static str = r"^[a-zA-Z0-9.!#$%&'*+/=?^_`{|}~-]+@[a-zA-Z0-9](?:[a-zA-Z0-9-]{0,61}[a-zA-Z0-9])?(?:\.[a-zA-Z0-9](?:[a-zA-Z0-9-]{0,61}[a-zA-Z0-9])?)*$";

/// The validator a rule runs.
pub enum ValidatorKind {
    NotNull,
    Size { min: Option<usize>, max: Option<usize> },
    /// A regular expression; `email` marks the built-in address pattern.
    Pattern { pattern: String, email: bool },
}

/// One validator call of the generated `validate`: the field's name, the
/// validator, and the message, if one was given.
pub struct ValidatorCall {
    pub field_name: String,
    pub kind: ValidatorKind,
    pub message: Option<String>,
}

/// The view of a [`ValidatorCall`]: the pattern, when there is one, with
/// whether it is the address pattern.
pub struct ValidatorCallView {
    pub field_name: Seq<char>,
    pub not_null: bool,
    pub size: Option<(Option<usize>, Option<usize>)>,
    pub pattern: Option<(Seq<char>, bool)>,
    pub message: Option<Seq<char>>,
}

impl View for ValidatorCall {
    type V = ValidatorCallView;

    open spec fn view(&self) -> ValidatorCallView {
        ValidatorCallView {
            field_name: self.field_name@,
            not_null: self.kind is NotNull,
            size: match self.kind {
                ValidatorKind::Size { min, max } => Some((min, max)),
                _ => None,
            },
            pattern: match self.kind {
                ValidatorKind::Pattern { pattern, email } => Some((pattern@, email)),
                _ => None,
            },
            message: self.message.deep_view(),
        }
    }
}

/// The call a rule makes: `Regex` and `Email` check a pattern (the address
/// pattern for `Email`); an empty message means the validator's default.
pub open spec fn validator_call_spec(r: ValidationRuleView) -> ValidatorCallView {
    ValidatorCallView {
        field_name: r.ident,
        not_null: r.ty is NotNull,
        size: match r.ty {
            ValidationTypeView::Size { min, max } => Some((min, max)),
            _ => None,
        },
        pattern: match r.ty {
            ValidationTypeView::Regex { pattern } => Some((pattern, false)),
            ValidationTypeView::Email => Some((EMAIL_PATTERN@, true)),
            _ => None,
        },
        message: if r.message.len() == 0 {
            None
        } else {
            Some(r.message)
        },
    }
}

/// The validator call of a rule.
pub fn validator_call(r: &ValidationRule) -> (c: ValidatorCall)
    ensures
        c@ == validator_call_spec(r@),
{
    let kind = match &r.validation.ty {
        ValidationType::NotNull => ValidatorKind::NotNull,
        ValidationType::Size { min, max } => ValidatorKind::Size { min: *min, max: *max },
        ValidationType::Regex { pattern } => ValidatorKind::Pattern {
            pattern: pattern.clone(),
            email: false,
        },
        ValidationType::Email => ValidatorKind::Pattern {
            pattern: String::from_str(EMAIL_PATTERN),
            email: true,
        },
    };
    let message = if r.validation.message.as_str().is_empty() {
        None
    } else {
        Some(r.validation.message.clone())
    };
    ValidatorCall { field_name: r.ident.clone(), kind, message }
}

/// The message a validator call reports for an attribute's message: the
/// one given, when it is not empty, else the validator's default.
pub open spec fn call_message(m: Option<String>) -> Option<Seq<char>> {
    match m {
        Some(s) => if s@.len() == 0 {
            None
        } else {
            Some(s@)
        },
        None => None,
    }
}

/// How many of the given flags hold.
pub open spec fn count_present(a: bool, b: bool, c: bool) -> int {
    (if a { 1int } else { 0int }) + (if b { 1int } else { 0int }) + (if c { 1int } else { 0int })
}

/// On a named `String` field, each validation attribute becomes one
/// validator call on that field, in the order `NotNull`, `Size`, `Pattern`,
/// `Email`: `#[NotNull]` checks presence, `#[Size(min, max)]` checks the
/// attribute's `min` as the minimum and its `max` as the maximum,
/// `#[Pattern(pattern)]` checks that pattern, `#[Email]` checks the address
/// pattern; each carries the attribute's message.
pub proof fn law_validator_calls_follow_attributes(f: ValidationFieldInput)
    requires
        f.ident is Some,
        is_string_spec(f.ty@),
    ensures
        match field_validations_spec(f) {
            Ok(rules) => {
                let id = f.ident.unwrap()@;
                let nn = f.not_null is Some;
                let sz = f.size is Some;
                let pt = f.pattern is Some;
                &&& rules.len() == count_present(nn, sz, pt) + (if f.email is Some {
                    1int
                } else {
                    0int
                })
                &&& f.not_null matches Some(a) ==> validator_call_spec(rules[0])
                    == ValidatorCallView {
                    field_name: id,
                    not_null: true,
                    size: None,
                    pattern: None,
                    message: call_message(a.message),
                }
                &&& f.size matches Some(a) ==> validator_call_spec(
                    rules[count_present(nn, false, false)],
                ) == ValidatorCallView {
                    field_name: id,
                    not_null: false,
                    size: Some((a.min, a.max)),
                    pattern: None,
                    message: call_message(a.message),
                }
                &&& f.pattern matches Some(a) ==> validator_call_spec(
                    rules[count_present(nn, sz, false)],
                ) == ValidatorCallView {
                    field_name: id,
                    not_null: false,
                    size: None,
                    pattern: Some((a.pattern@, false)),
                    message: call_message(a.message),
                }
                &&& f.email matches Some(a) ==> validator_call_spec(
                    rules[count_present(nn, sz, pt)],
                ) == ValidatorCallView {
                    field_name: id,
                    not_null: false,
                    size: None,
                    pattern: Some((EMAIL_PATTERN@, true)),
                    message: call_message(a.message),
                }
            },
            Err(_) => false,
        },
{
}

/// The names of the arguments that are bound to a plain identifier, in order.
pub open spec fn validated_args_spec(args: Seq<Option<Seq<char>>>) -> Seq<Seq<char>>
    decreases args.len(),
{
    if args.len() == 0 {
        Seq::empty()
    } else {
        validated_args_spec(args.drop_last()) + match args.last() {
            Some(n) => seq![n],
            None => Seq::empty(),
        }
    }
}

/// The arguments a function checked by `#[validate_args]` validates before
/// its body runs: every argument bound to a plain identifier (`None` stands
/// for an argument bound by any other pattern), in order.
pub fn validated_args(args: &Vec<Option<String>>) -> (r: Vec<String>)
    ensures
        r.deep_view() == validated_args_spec(args.deep_view()),
{
    let mut r: Vec<String> = Vec::new();
    let mut i: usize = 0;
    assert(args.deep_view().take(0) =~= Seq::<Option<Seq<char>>>::empty());
    while i < args.len()
        invariant
            i <= args.len(),
            r.deep_view() == validated_args_spec(args.deep_view().take(i as int)),
        decreases args.len() - i,
    {
        let ghost before = r.deep_view();
        let ghost t = args.deep_view().take(i + 1);
        proof {
            assert(t.drop_last() =~= args.deep_view().take(i as int));
            assert(t.last() == args@[i as int].deep_view());
        }
        match &args[i] {
            Some(n) => {
                r.push(n.clone());
                assert(r.deep_view() =~= before.push(n@));
            },
            None => {
                assert(before + Seq::<Seq<char>>::empty() =~= before);
            },
        }
        i = i + 1;
    }
    assert(args.deep_view().take(args.len() as int) =~= args.deep_view());
    r
}

} // verus!
