//! From the raw form of a decoration (a name and literal arguments) to a
//! typed decoration value.
use vstd::prelude::*;
use crate::names::{
    access_qualifier_word, builtin_word, dim_word, execution_mode_word, execution_model_word,
    image_format_word, is_word, spec_access_qualifier_word, spec_builtin_word, spec_dim_word,
    spec_execution_mode_word, spec_execution_model_word, spec_image_format_word,
    spec_storage_class_word, storage_class_word,
};
use crate::vocab::{
    AttrModel, Entry, EntryModel, ExecutionModeExtra, IntrinsicType, Span, SpirvAttribute,
};

verus! {

/// A literal argument of a decoration.
#[derive(Clone, Debug)]
pub enum Lit {
    Int(u64),
    Str(String),
    Ident(String),
}

pub enum LitModel {
    Int(u64),
    Str(Seq<char>),
    Ident(Seq<char>),
}

impl View for Lit {
    type V = LitModel;

    open spec fn view(&self) -> LitModel {
        match self {
            Lit::Int(v) => LitModel::Int(*v),
            Lit::Str(s) => LitModel::Str(s@),
            Lit::Ident(s) => LitModel::Ident(s@),
        }
    }
}

/// One decoration as written: its name, its arguments in order, and where
/// it stands.
#[derive(Clone, Debug)]
pub struct RawAttr {
    pub name: String,
    pub args: Vec<Lit>,
    pub span: Span,
}

pub struct RawAttrModel {
    pub name: Seq<char>,
    pub args: Seq<LitModel>,
    pub span: Span,
}

impl View for RawAttr {
    type V = RawAttrModel;

    open spec fn view(&self) -> RawAttrModel {
        RawAttrModel {
            name: self.name@,
            args: self.args@.map_values(|l: Lit| l@),
            span: self.span,
        }
    }
}

/// Why a decoration could not be parsed.
#[derive(Clone, Copy, Debug, PartialEq, Eq, Structural)]
pub enum ParseError {
    /// The name is not a decoration.
    UnknownAttribute,
    /// Too many or too few arguments.
    ArgumentCount,
    /// An integer argument was expected.
    ExpectedInteger,
    /// An integer argument does not fit in 32 bits.
    IntegerTooLarge,
    /// A name argument was expected.
    ExpectedName,
    /// A name argument names nothing of its kind.
    UnknownValue,
    /// An integer operand of an entry point precedes every execution mode.
    OperandWithoutMode,
    /// An execution mode was given more than three operands.
    TooManyOperands,
    /// An entry point was given two names.
    DuplicateEntryName,
}

pub open spec fn spec_u32_arg(a: LitModel) -> Result<u32, ParseError> {
    match a {
        LitModel::Int(v) => if v <= u32::MAX {
            Ok(v as u32)
        } else {
            Err(ParseError::IntegerTooLarge)
        },
        _ => Err(ParseError::ExpectedInteger),
    }
}

fn u32_arg(a: &Lit) -> (r: Result<u32, ParseError>)
    ensures
        r == spec_u32_arg(a@),
{
    match a {
        Lit::Int(v) => {
            if *v <= u32::MAX as u64 {
                Ok(*v as u32)
            } else {
                Err(ParseError::IntegerTooLarge)
            }
        },
        _ => Err(ParseError::ExpectedInteger),
    }
}

/// A name argument, looked up in a table of words.
pub open spec fn spec_named_arg(a: LitModel, word: spec_fn(Seq<char>) -> Option<u32>) -> Result<
    u32,
    ParseError,
> {
    match a {
        LitModel::Ident(s) => match word(s) {
            Some(w) => Ok(w),
            None => Err(ParseError::UnknownValue),
        },
        _ => Err(ParseError::ExpectedName),
    }
}

fn ident_arg(a: &Lit) -> (r: Result<&String, ParseError>)
    ensures
        match a@ {
            LitModel::Ident(s) => r is Ok && r->Ok_0@ == s,
            _ => r == Err::<&String, ParseError>(ParseError::ExpectedName),
        },
{
    match a {
        Lit::Ident(s) => Ok(s),
        _ => Err(ParseError::ExpectedName),
    }
}

fn dim_arg(a: &Lit) -> (r: Result<u32, ParseError>)
    ensures
        r == spec_named_arg(a@, |s: Seq<char>| spec_dim_word(s)),
{
    match ident_arg(a) {
        Ok(s) => match dim_word(s) {
            Some(w) => Ok(w),
            None => Err(ParseError::UnknownValue),
        },
        Err(e) => Err(e),
    }
}

fn image_format_arg(a: &Lit) -> (r: Result<u32, ParseError>)
    ensures
        r == spec_named_arg(a@, |s: Seq<char>| spec_image_format_word(s)),
{
    match ident_arg(a) {
        Ok(s) => match image_format_word(s) {
            Some(w) => Ok(w),
            None => Err(ParseError::UnknownValue),
        },
        Err(e) => Err(e),
    }
}

fn access_qualifier_arg(a: &Lit) -> (r: Result<u32, ParseError>)
    ensures
        r == spec_named_arg(a@, |s: Seq<char>| spec_access_qualifier_word(s)),
{
    match ident_arg(a) {
        Ok(s) => match access_qualifier_word(s) {
            Some(w) => Ok(w),
            None => Err(ParseError::UnknownValue),
        },
        Err(e) => Err(e),
    }
}

/// `image_type(dim, depth, arrayed, multisampled, sampled, format[, access])`.
pub open spec fn spec_image_type(args: Seq<LitModel>) -> Result<AttrModel, ParseError> {
    if args.len() != 6 && args.len() != 7 {
        Err(ParseError::ArgumentCount)
    } else {
        let dim = spec_named_arg(args[0], |s: Seq<char>| spec_dim_word(s));
        let depth = spec_u32_arg(args[1]);
        let arrayed = spec_u32_arg(args[2]);
        let multisampled = spec_u32_arg(args[3]);
        let sampled = spec_u32_arg(args[4]);
        let format = spec_named_arg(args[5], |s: Seq<char>| spec_image_format_word(s));
        let access = if args.len() == 7 {
            spec_named_arg(args[6], |s: Seq<char>| spec_access_qualifier_word(s))
        } else {
            Ok(0)
        };
        if dim is Err {
            Err(dim->Err_0)
        } else if depth is Err {
            Err(depth->Err_0)
        } else if arrayed is Err {
            Err(arrayed->Err_0)
        } else if multisampled is Err {
            Err(multisampled->Err_0)
        } else if sampled is Err {
            Err(sampled->Err_0)
        } else if format is Err {
            Err(format->Err_0)
        } else if access is Err {
            Err(access->Err_0)
        } else {
            Ok(
                AttrModel::IntrinsicType(
                    IntrinsicType::ImageType {
                        dim: dim->Ok_0,
                        depth: depth->Ok_0,
                        arrayed: arrayed->Ok_0,
                        multisampled: multisampled->Ok_0,
                        sampled: sampled->Ok_0,
                        image_format: format->Ok_0,
                        access_qualifier: if args.len() == 7 {
                            Some(access->Ok_0)
                        } else {
                            None
                        },
                    },
                ),
            )
        }
    }
}

fn parse_image_type(args: &Vec<Lit>) -> (r: Result<IntrinsicType, ParseError>)
    ensures
        match r {
            Ok(t) => spec_image_type(args@.map_values(|l: Lit| l@)) == Ok::<AttrModel, ParseError>(
                AttrModel::IntrinsicType(t),
            ),
            Err(e) => spec_image_type(args@.map_values(|l: Lit| l@)) == Err::<AttrModel, ParseError>(e),
        },
{
    if args.len() != 6 && args.len() != 7 {
        return Err(ParseError::ArgumentCount);
    }
    let dim = match dim_arg(&args[0]) {
        Ok(w) => w,
        Err(e) => return Err(e),
    };
    let depth = match u32_arg(&args[1]) {
        Ok(w) => w,
        Err(e) => return Err(e),
    };
    let arrayed = match u32_arg(&args[2]) {
        Ok(w) => w,
        Err(e) => return Err(e),
    };
    let multisampled = match u32_arg(&args[3]) {
        Ok(w) => w,
        Err(e) => return Err(e),
    };
    let sampled = match u32_arg(&args[4]) {
        Ok(w) => w,
        Err(e) => return Err(e),
    };
    let image_format = match image_format_arg(&args[5]) {
        Ok(w) => w,
        Err(e) => return Err(e),
    };
    let access_qualifier = if args.len() == 7 {
        match access_qualifier_arg(&args[6]) {
            Ok(w) => Some(w),
            Err(e) => return Err(e),
        }
    } else {
        None
    };
    Ok(
        IntrinsicType::ImageType {
            dim,
            depth,
            arrayed,
            multisampled,
            sampled,
            image_format,
            access_qualifier,
        },
    )
}

/// The execution modes and the name read so far from an entry point's
/// arguments.
pub type EntryArgs = (Seq<(u32, Seq<u32>)>, Option<Seq<char>>);

/// One argument of an entry point: a mode name starts an execution mode, an
/// integer adds an operand to the latest mode, a string gives the name.
pub open spec fn entry_step(st: EntryArgs, a: LitModel) -> Result<EntryArgs, ParseError> {
    match a {
        LitModel::Ident(s) => match spec_execution_mode_word(s) {
            Some(m) => Ok((st.0.push((m, Seq::empty())), st.1)),
            None => Err(ParseError::UnknownValue),
        },
        LitModel::Int(v) => if st.0.len() == 0 {
            Err(ParseError::OperandWithoutMode)
        } else if st.0.last().1.len() >= 3 {
            Err(ParseError::TooManyOperands)
        } else if v > u32::MAX {
            Err(ParseError::IntegerTooLarge)
        } else {
            Ok((st.0.update(st.0.len() - 1, (st.0.last().0, st.0.last().1.push(v as u32))), st.1))
        },
        LitModel::Str(s) => if st.1 is Some {
            Err(ParseError::DuplicateEntryName)
        } else {
            Ok((st.0, Some(s)))
        },
    }
}

pub open spec fn spec_entry_args(args: Seq<LitModel>) -> Result<EntryArgs, ParseError>
    decreases args.len(),
{
    if args.len() == 0 {
        Ok((Seq::empty(), None))
    } else {
        match spec_entry_args(args.drop_last()) {
            Ok(st) => entry_step(st, args.last()),
            Err(e) => Err(e),
        }
    }
}

pub open spec fn spec_entry(model: u32, args: Seq<LitModel>) -> Result<AttrModel, ParseError> {
    match spec_entry_args(args) {
        Ok(st) => Ok(AttrModel::Entry(EntryModel { execution_model: model, execution_modes: st.0, name: st.1 })),
        Err(e) => Err(e),
    }
}

pub open spec fn modes_view(v: Seq<(u32, ExecutionModeExtra)>) -> Seq<(u32, Seq<u32>)> {
    v.map_values(|m: (u32, ExecutionModeExtra)| (m.0, m.1@))
}

/// An error in the first `k` arguments is the error of all of them.
proof fn lemma_entry_error_stays(args: Seq<LitModel>, k: int)
    requires
        0 <= k <= args.len(),
        spec_entry_args(args.take(k)) is Err,
    ensures
        spec_entry_args(args) == spec_entry_args(args.take(k)),
    decreases args.len() - k,
{
    if k < args.len() {
        assert(args.take(k + 1).drop_last() =~= args.take(k));
        lemma_entry_error_stays(args, k + 1);
    } else {
        assert(args.take(k) =~= args);
    }
}

fn parse_entry(execution_model: u32, args: &Vec<Lit>) -> (r: Result<Entry, ParseError>)
    ensures
        match r {
            Ok(e) => spec_entry(execution_model, args@.map_values(|l: Lit| l@)) == Ok::<AttrModel, ParseError>(
                AttrModel::Entry(e@),
            ),
            Err(e) => spec_entry(execution_model, args@.map_values(|l: Lit| l@)) == Err::<AttrModel, ParseError>(e),
        },
{
    let ghost all = args@.map_values(|l: Lit| l@);
    let mut entry = Entry::from(execution_model);
    let mut i: usize = 0;
    while i < args.len()
        invariant
            i <= args.len(),
            all == args@.map_values(|l: Lit| l@),
            entry.execution_model == execution_model,
            spec_entry_args(all.take(i as int)) == Ok::<EntryArgs, ParseError>(
                (modes_view(entry.execution_modes@), entry@.name),
            ),
        decreases args.len() - i,
    {
        let ghost st = (modes_view(entry.execution_modes@), entry@.name);
        assert(all.take(i + 1).drop_last() =~= all.take(i as int));
        assert(all.take(i + 1).last() == args@[i as int]@);
        match &args[i] {
            Lit::Ident(s) => {
                match execution_mode_word(s) {
                    Some(m) => {
                        let no_operands: Vec<u32> = Vec::new();
                        entry.execution_modes.push(
                            (m, ExecutionModeExtra::new(no_operands.as_slice())),
                        );
                        assert(modes_view(entry.execution_modes@) =~= st.0.push((m, Seq::empty())));
                    },
                    None => {
                        proof {
                            lemma_entry_error_stays(all, i + 1);
                        }
                        return Err(ParseError::UnknownValue);
                    },
                }
            },
            Lit::Int(v) => {
                let n = entry.execution_modes.len();
                if n == 0 {
                    {
                        proof {
                            lemma_entry_error_stays(all, i + 1);
                        }
                        return Err(ParseError::OperandWithoutMode);
                    }
                }
                let (m, extra) = entry.execution_modes.pop().unwrap();
                let mut ops = extra.as_ref();
                if ops.len() >= 3 {
                    {
                        proof {
                            lemma_entry_error_stays(all, i + 1);
                        }
                        return Err(ParseError::TooManyOperands);
                    }
                }
                if *v > u32::MAX as u64 {
                    {
                        proof {
                            lemma_entry_error_stays(all, i + 1);
                        }
                        return Err(ParseError::IntegerTooLarge);
                    }
                }
                ops.push(*v as u32);
                entry.execution_modes.push((m, ExecutionModeExtra::new(ops.as_slice())));
                assert(modes_view(entry.execution_modes@) =~= st.0.update(
                    st.0.len() - 1,
                    (st.0.last().0, st.0.last().1.push(*v as u32)),
                ));
            },
            Lit::Str(s) => {
                if entry.name.is_some() {
                    {
                        proof {
                            lemma_entry_error_stays(all, i + 1);
                        }
                        return Err(ParseError::DuplicateEntryName);
                    }
                }
                entry.name = Some(s.clone());
            },
        }
        i = i + 1;
    }
    assert(all.take(i as int) =~= all);
    assert(entry@.execution_modes == modes_view(entry.execution_modes@));
    Ok(entry)
}

pub open spec fn no_args(args: Seq<LitModel>, a: AttrModel) -> Result<AttrModel, ParseError> {
    if args.len() == 0 {
        Ok(a)
    } else {
        Err(ParseError::ArgumentCount)
    }
}

pub open spec fn one_u32(args: Seq<LitModel>, f: spec_fn(u32) -> AttrModel) -> Result<
    AttrModel,
    ParseError,
> {
    if args.len() != 1 {
        Err(ParseError::ArgumentCount)
    } else {
        match spec_u32_arg(args[0]) {
            Ok(n) => Ok(f(n)),
            Err(e) => Err(e),
        }
    }
}

/// What a decoration as written parses to.
#[verifier::opaque]
pub open spec fn spec_parse_attr(raw: RawAttrModel) -> Result<AttrModel, ParseError> {
    let name = raw.name;
    let args = raw.args;
    if name == "block"@ {
        no_args(args, AttrModel::Block)
    } else if name == "flat"@ {
        no_args(args, AttrModel::Flat)
    } else if name == "unroll_loops"@ {
        no_args(args, AttrModel::UnrollLoops)
    } else if name == "sampler"@ {
        no_args(args, AttrModel::IntrinsicType(IntrinsicType::Sampler))
    } else if name == "sampled_image"@ {
        no_args(args, AttrModel::IntrinsicType(IntrinsicType::SampledImage))
    } else if name == "image_type"@ {
        spec_image_type(args)
    } else if name == "descriptor_set"@ {
        one_u32(args, |n: u32| AttrModel::DescriptorSet(n))
    } else if name == "binding"@ {
        one_u32(args, |n: u32| AttrModel::Binding(n))
    } else if spec_storage_class_word(name) is Some {
        no_args(args, AttrModel::StorageClass(spec_storage_class_word(name)->Some_0))
    } else if spec_builtin_word(name) is Some {
        no_args(args, AttrModel::Builtin(spec_builtin_word(name)->Some_0))
    } else if spec_execution_model_word(name) is Some {
        spec_entry(spec_execution_model_word(name)->Some_0, args)
    } else {
        Err(ParseError::UnknownAttribute)
    }
}

pub open spec fn parsed_view(r: Result<SpirvAttribute, ParseError>) -> Result<AttrModel, ParseError> {
    match r {
        Ok(a) => Ok(a@),
        Err(e) => Err(e),
    }
}

fn no_args_attr(args: &Vec<Lit>, a: SpirvAttribute) -> (r: Result<SpirvAttribute, ParseError>)
    ensures
        parsed_view(r) == no_args(args@.map_values(|l: Lit| l@), a@),
{
    if args.len() == 0 {
        Ok(a)
    } else {
        Err(ParseError::ArgumentCount)
    }
}

fn one_u32_arg(args: &Vec<Lit>) -> (r: Result<u32, ParseError>)
    ensures
        r == (if args@.len() != 1 {
            Err(ParseError::ArgumentCount)
        } else {
            spec_u32_arg(args@[0]@)
        }),
{
    if args.len() != 1 {
        Err(ParseError::ArgumentCount)
    } else {
        u32_arg(&args[0])
    }
}

/// Parses one decoration as written.
pub fn parse_attr(raw: &RawAttr) -> (r: Result<SpirvAttribute, ParseError>)
    ensures
        parsed_view(r) == spec_parse_attr(raw@),
{
    reveal(spec_parse_attr);
    let name = &raw.name;
    let args = &raw.args;
    if is_word(name, "block") {
        no_args_attr(args, SpirvAttribute::Block)
    } else if is_word(name, "flat") {
        no_args_attr(args, SpirvAttribute::Flat)
    } else if is_word(name, "unroll_loops") {
        no_args_attr(args, SpirvAttribute::UnrollLoops)
    } else if is_word(name, "sampler") {
        no_args_attr(args, SpirvAttribute::IntrinsicType(IntrinsicType::Sampler))
    } else if is_word(name, "sampled_image") {
        no_args_attr(args, SpirvAttribute::IntrinsicType(IntrinsicType::SampledImage))
    } else if is_word(name, "image_type") {
        match parse_image_type(args) {
            Ok(t) => Ok(SpirvAttribute::IntrinsicType(t)),
            Err(e) => Err(e),
        }
    } else if is_word(name, "descriptor_set") {
        match one_u32_arg(args) {
            Ok(n) => Ok(SpirvAttribute::DescriptorSet(n)),
            Err(e) => Err(e),
        }
    } else if is_word(name, "binding") {
        match one_u32_arg(args) {
            Ok(n) => Ok(SpirvAttribute::Binding(n)),
            Err(e) => Err(e),
        }
    } else if let Some(w) = storage_class_word(name) {
        no_args_attr(args, SpirvAttribute::StorageClass(w))
    } else if let Some(w) = builtin_word(name) {
        no_args_attr(args, SpirvAttribute::Builtin(w))
    } else if let Some(m) = execution_model_word(name) {
        match parse_entry(m, args) {
            Ok(e) => Ok(SpirvAttribute::Entry(e)),
            Err(e) => Err(e),
        }
    } else {
        Err(ParseError::UnknownAttribute)
    }
}

} // verus!
