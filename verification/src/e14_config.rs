//! E14xx: configuration errors (CONFIGURATION, RESOURCE, TASK, located
//! variables, VAR_CONFIG).
use vstd::prelude::*;
use vstd::string::*;
use crate::diag::{Diagnostic, DiagnosticView, FileId, Related, Severity, Span, Tag};
use crate::hir::{Named, NamedView};
use crate::text::{cat2, cat3, cat4, cat5, cat6, cat7, decimal, join, join_strings, texts, usize_to_string, u128_to_string};

use crate::diag::RelatedView;

use crate::diag::FixView;

verus! {

/// Why a VAR_CONFIG entry cannot be taken as written.
pub enum ConfigEntryRefusal {
    /// `Res.P1.arr[0]`, `Res.P1.p^.x`: a path names instances and variables.
    PathStep,
    /// The type the entry repeats is not the variable's.
    TypeMismatch { var: String, written: String, declared: String },
}

/// Why a VAR_CONFIG entry cannot give the variable it names this address.
pub enum ConfigLocationRefusal {
    /// The variable's declaration has an address of its own, or none.
    NotPartlyLocated,
    /// Declared `AT %I*` and given a `%Q` address, for instance.
    AreaMismatch { declared: String },
    /// `%I*` again, or no area or width letter.
    Unlocatable { incomplete: bool },
    /// The address is not as wide as the variable's type.
    Width { address_bits: usize, declared_bits: Option<usize>, declared: String },
    /// A bit inside a wider address the workspace names.
    BitOfWider { owner: String },
    /// Another entry locates the same instance's variable.
    LocatedTwice { other: String },
}

/// `"1 bit"`, or `n` followed by `" bits"`.
pub open spec fn bits_text(n: nat) -> Seq<char> {
    if n == 1 { "1 bit"@ } else { decimal(n) + " bits"@ }
}

fn bits_string(n: usize) -> (r: String)
    ensures
        r@ == bits_text(n as nat),
{
    if n == 1 {
        String::from_str("1 bit")
    } else {
        let d = usize_to_string(n);
        cat2(d.as_str(), " bits")
    }
}

impl ConfigLocationRefusal {
    pub open spec fn spec_message(&self, var: Seq<char>, address: Seq<char>) -> Seq<char> {
        match self {
            ConfigLocationRefusal::NotPartlyLocated =>
                "'"@ + var + "' is not declared AT %I*, %Q* or %M*, so its address is not VAR_CONFIG's to give"@,
            ConfigLocationRefusal::AreaMismatch { declared } =>
                "'"@ + var + "' is declared AT "@ + declared@ + ", and '"@ + address + "' is not in that area"@,
            ConfigLocationRefusal::Unlocatable { incomplete } =>
                if *incomplete {
                    "'"@ + address + "' is not a complete address"@
                } else {
                    "'"@ + address + "' does not name an area and a width"@
                },
            ConfigLocationRefusal::Width { address_bits, declared_bits, declared } =>
                match declared_bits {
                    Some(n) => "'"@ + address + "' is "@ + bits_text(*address_bits as nat) + ", but '"@ + var
                        + "' is declared '"@ + declared@ + "', which is "@ + decimal(*n as nat),
                    None => "'"@ + address + "' is "@ + bits_text(*address_bits as nat) + ", but '"@ + var
                        + "' is declared '"@ + declared@ + "', which has no width of its own"@,
                },
            ConfigLocationRefusal::BitOfWider { owner } =>
                "'"@ + address + "' is a bit of '"@ + owner@ + "', and a bit has no address to locate '"@ + var + "' at"@,
            ConfigLocationRefusal::LocatedTwice { other } =>
                "'"@ + var + "' is located at '"@ + address + "' here and at '"@ + other@ + "' by another entry"@,
        }
    }

    /// The message for the entry that locates `var` at `address`.
    pub fn message(&self, var: &str, address: &str) -> (r: String)
        ensures
            r@ == self.spec_message(var@, address@),
    {
        match self {
            ConfigLocationRefusal::NotPartlyLocated => cat3(
                "'",
                var,
                "' is not declared AT %I*, %Q* or %M*, so its address is not VAR_CONFIG's to give",
            ),
            ConfigLocationRefusal::AreaMismatch { declared } => cat5(
                "'",
                var,
                "' is declared AT ",
                declared.as_str(),
                ", and '",
            ).concat(address).concat("' is not in that area"),
            ConfigLocationRefusal::Unlocatable { incomplete } => {
                if *incomplete {
                    cat3("'", address, "' is not a complete address")
                } else {
                    cat3("'", address, "' does not name an area and a width")
                }
            },
            ConfigLocationRefusal::Width { address_bits, declared_bits, declared } => {
                let bits = bits_string(*address_bits);
                let head = cat6("'", address, "' is ", bits.as_str(), ", but '", var);
                match declared_bits {
                    Some(n) => {
                        let d = usize_to_string(*n);
                        cat5(head.as_str(), "' is declared '", declared.as_str(), "', which is ", d.as_str())
                    },
                    None => cat4(
                        head.as_str(),
                        "' is declared '",
                        declared.as_str(),
                        "', which has no width of its own",
                    ),
                }
            },
            ConfigLocationRefusal::BitOfWider { owner } => cat6(
                "'",
                address,
                "' is a bit of '",
                owner.as_str(),
                "', and a bit has no address to locate '",
                var,
            ).concat("' at"),
            ConfigLocationRefusal::LocatedTwice { other } => cat7(
                "'",
                var,
                "' is located at '",
                address,
                "' here and at '",
                other.as_str(),
                "' by another entry",
            ),
        }
    }

    pub open spec fn spec_note(&self) -> Seq<char> {
        match self {
            ConfigLocationRefusal::NotPartlyLocated =>
                "declare it AT %I*, %Q* or %M* in its POU to leave its address to the configuration"@,
            ConfigLocationRefusal::AreaMismatch { .. } =>
                "the area is the declaration's: give an input an address in %I, an output one in %Q, a marker one in %M"@,
            ConfigLocationRefusal::Unlocatable { .. } =>
                "VAR_CONFIG gives the complete address, such as '%IX0.0' or '%QW4'"@,
            ConfigLocationRefusal::Width { .. } =>
                "the variable holds one value as wide as its address; give it an address of its type's width"@,
            ConfigLocationRefusal::BitOfWider { .. } =>
                "the variable points at its channel, so give it a byte or wider, or a bit nothing wider around it is named"@,
            ConfigLocationRefusal::LocatedTwice { .. } =>
                "an instance's variable has one address; keep one of the entries"@,
        }
    }

    /// What to write instead.
    pub fn note(&self) -> (r: &'static str)
        ensures
            r@ == self.spec_note(),
    {
        match self {
            ConfigLocationRefusal::NotPartlyLocated => "declare it AT %I*, %Q* or %M* in its POU to leave its address to the configuration",
            ConfigLocationRefusal::AreaMismatch { .. } => "the area is the declaration's: give an input an address in %I, an output one in %Q, a marker one in %M",
            ConfigLocationRefusal::Unlocatable { .. } => "VAR_CONFIG gives the complete address, such as '%IX0.0' or '%QW4'",
            ConfigLocationRefusal::Width { .. } => "the variable holds one value as wide as its address; give it an address of its type's width",
            ConfigLocationRefusal::BitOfWider { .. } => "the variable points at its channel, so give it a byte or wider, or a bit nothing wider around it is named",
            ConfigLocationRefusal::LocatedTwice { .. } => "an instance's variable has one address; keep one of the entries",
        }
    }
}

/// A variable declared `AT %I*`, `%Q*` or `%M*` that is left without an address.
pub enum PartlyUnlocated {
    /// An instance whose variable no VAR_CONFIG entry locates.
    Missing {
        /// The PROGRAM instance, where the CONFIGURATION declares it.
        instance: Named,
        /// The path from the instance: `P1.fb.x`.
        path: String,
        /// `%I*`, `%Q*` or `%M*`.
        address: String,
    },
    /// Instances held where no VAR_CONFIG path reaches them.
    Unreachable {
        var: Named,
        /// The member declared with the partial address: `x`, or `fb.x`.
        member: String,
        address: String,
        place: UnreachablePlace,
    },
}

/// Where an instance is held that VAR_CONFIG cannot name.
#[derive(Clone, Copy, Debug, PartialEq, Eq, Structural)]
pub enum UnreachablePlace {
    /// An element of an array.
    Array,
    /// A VAR_GLOBAL.
    Global,
    /// A FUNCTION's, a METHOD's, or a VAR_TEMP.
    PerCall,
}

/// What a part of a wider address was used for that it cannot be.
#[derive(Clone, Copy, Debug, PartialEq, Eq, Structural)]
pub enum WiderAddressUse {
    /// Passed to a VAR_IN_OUT, which takes an address.
    InOut,
    /// Given to `REF()`, which takes an address.
    Reference,
    /// Used as a FOR counter, which needs storage of its own.
    ForCounter,
    /// Declared RETAIN.
    Retain,
    /// Given an initial value.
    Initializer,
}

impl WiderAddressUse {
    pub open spec fn spec_message(self, address: Seq<char>, owner: Seq<char>) -> Seq<char> {
        let is = "'"@ + address + "' is part of '"@ + owner + "'"@;
        match self {
            WiderAddressUse::InOut => is + " and has no address of its own to pass to a VAR_IN_OUT"@,
            WiderAddressUse::Reference => is + " and has no address of its own to take a reference to"@,
            WiderAddressUse::ForCounter => is + " and cannot count a FOR loop"@,
            WiderAddressUse::Retain => is + " and cannot be RETAIN on its own"@,
            WiderAddressUse::Initializer => is + " and cannot have an initial value of its own"@,
        }
    }

    /// What is wrong with using part `address` of `owner` this way.
    pub fn message(&self, address: &str, owner: &str) -> (r: String)
        ensures
            r@ == self.spec_message(address@, owner@),
    {
        let is = cat5("'", address, "' is part of '", owner, "'");
        match self {
            WiderAddressUse::InOut => cat2(is.as_str(), " and has no address of its own to pass to a VAR_IN_OUT"),
            WiderAddressUse::Reference => cat2(is.as_str(), " and has no address of its own to take a reference to"),
            WiderAddressUse::ForCounter => cat2(is.as_str(), " and cannot count a FOR loop"),
            WiderAddressUse::Retain => cat2(is.as_str(), " and cannot be RETAIN on its own"),
            WiderAddressUse::Initializer => cat2(is.as_str(), " and cannot have an initial value of its own"),
        }
    }

    pub open spec fn spec_note(self, address: Seq<char>, owner: Seq<char>) -> Seq<char> {
        match self {
            WiderAddressUse::InOut => "copy it into a variable, pass that, and assign it back"@,
            WiderAddressUse::Reference => "take the reference of '"@ + owner + "' as a whole"@,
            WiderAddressUse::ForCounter => "count in a variable and assign '"@ + address + "' from it"@,
            WiderAddressUse::Retain =>
                "RETAIN belongs on the variable located at '"@ + owner + "', whose storage this is"@,
            WiderAddressUse::Initializer =>
                "give the variable located at '"@ + owner + "' an initial value with this part set in it"@,
        }
    }

    /// What to do instead.
    pub fn note(&self, address: &str, owner: &str) -> (r: String)
        ensures
            r@ == self.spec_note(address@, owner@),
    {
        match self {
            WiderAddressUse::InOut => String::from_str("copy it into a variable, pass that, and assign it back"),
            WiderAddressUse::Reference => cat3("take the reference of '", owner, "' as a whole"),
            WiderAddressUse::ForCounter => cat3("count in a variable and assign '", address, "' from it"),
            WiderAddressUse::Retain => cat3("RETAIN belongs on the variable located at '", owner, "', whose storage this is"),
            WiderAddressUse::Initializer => cat3(
                "give the variable located at '",
                owner,
                "' an initial value with this part set in it",
            ),
        }
    }
}

/// Why an address has no storage to be given.
#[derive(Clone, Copy, Debug, PartialEq, Eq, Structural)]
pub enum UnlocatableAddress {
    /// An `AT` clause on a variable of a POU other than a PROGRAM.
    InPou,
    /// `%I*`: the address is deliberately incomplete.
    Incomplete,
    /// No area letter, or no width letter.
    Malformed,
    /// `%IW*`, `%Z*`: a partial address names an area and nothing else.
    NotAreaOnly,
}

impl UnlocatableAddress {
    pub open spec fn spec_message(self, address: Seq<char>) -> Seq<char> {
        match self {
            UnlocatableAddress::InPou => "'"@ + address + "' cannot locate a variable of this POU"@,
            UnlocatableAddress::Incomplete => "'"@ + address + "' is not a complete address"@,
            UnlocatableAddress::Malformed => "'"@ + address + "' does not name an area and a width"@,
            UnlocatableAddress::NotAreaOnly =>
                "'"@ + address + "' is not a partial address: write '%I*', '%Q*' or '%M*'"@,
        }
    }

    /// Why `address` locates nothing.
    pub fn message(self, address: &str) -> (r: String)
        ensures
            r@ == self.spec_message(address@),
    {
        match self {
            UnlocatableAddress::InPou => cat3("'", address, "' cannot locate a variable of this POU"),
            UnlocatableAddress::Incomplete => cat3("'", address, "' is not a complete address"),
            UnlocatableAddress::Malformed => cat3("'", address, "' does not name an area and a width"),
            UnlocatableAddress::NotAreaOnly => cat3(
                "'",
                address,
                "' is not a partial address: write '%I*', '%Q*' or '%M*'",
            ),
        }
    }

    pub open spec fn spec_note(self) -> Seq<char> {
        match self {
            UnlocatableAddress::InPou =>
                "a function's, function block's or class's variables belong to each call or instance, so one address cannot be theirs; declare it in a PROGRAM, or as a VAR_GLOBAL of the CONFIGURATION, and name it from here"@,
            UnlocatableAddress::Incomplete =>
                "VAR_CONFIG completes a partial address for a variable of a PROGRAM, FUNCTION_BLOCK or CLASS, instance by instance; anywhere else, write the address in full"@,
            UnlocatableAddress::Malformed =>
                "an address names its area with I, Q or M and its width with X, B, W, D or L, as in '%IX0.0'; a bit may leave the width out, as in '%I0.0'"@,
            UnlocatableAddress::NotAreaOnly =>
                "the variable's type gives the width, and VAR_CONFIG gives the rest of the address"@,
        }
    }

    /// What to write instead.
    pub fn note(self) -> (r: &'static str)
        ensures
            r@ == self.spec_note(),
    {
        match self {
            UnlocatableAddress::InPou => "a function's, function block's or class's variables belong to each call or instance, so one address cannot be theirs; declare it in a PROGRAM, or as a VAR_GLOBAL of the CONFIGURATION, and name it from here",
            UnlocatableAddress::Incomplete => "VAR_CONFIG completes a partial address for a variable of a PROGRAM, FUNCTION_BLOCK or CLASS, instance by instance; anywhere else, write the address in full",
            UnlocatableAddress::Malformed => "an address names its area with I, Q or M and its width with X, B, W, D or L, as in '%IX0.0'; a bit may leave the width out, as in '%I0.0'",
            UnlocatableAddress::NotAreaOnly => "the variable's type gives the width, and VAR_CONFIG gives the rest of the address",
        }
    }
}

/// How a program reached an input it may not write.
#[derive(Clone, Copy, Debug, PartialEq, Eq, Structural)]
pub enum InputWriteRoute {
    Assignment,
    Reference,
    /// An initial value.
    Initializer,
}

/// Which parsed-but-inert CONFIGURATION construct was found.
#[derive(Clone, Copy, Debug, PartialEq, Eq, Structural)]
pub enum UnsupportedConfigKind {
    /// `PROGRAM P WITH T : Type (in := src)`.
    ProgramConnection,
    /// `PROGRAM P WITH T : Type (fb WITH other_task)`.
    FbTaskAssociation,
    /// `VAR_CONFIG PA.x : INT := 42;`.
    InstanceInit,
    /// The same, on a variable declared `AT %I*`.
    InstanceInitLocated,
}

impl UnsupportedConfigKind {
    pub open spec fn spec_message(self) -> Seq<char> {
        match self {
            UnsupportedConfigKind::ProgramConnection =>
                "program connection lists are parsed but not wired up yet, so this has no effect"@,
            UnsupportedConfigKind::FbTaskAssociation =>
                "associating a function block with its own task is not supported yet"@,
            UnsupportedConfigKind::InstanceInit | UnsupportedConfigKind::InstanceInitLocated =>
                "a VAR_CONFIG value is checked but not applied yet, so it never reaches the instance"@,
        }
    }

    /// What is not supported.
    pub fn message(self) -> (r: &'static str)
        ensures
            r@ == self.spec_message(),
    {
        match self {
            UnsupportedConfigKind::ProgramConnection => "program connection lists are parsed but not wired up yet, so this has no effect",
            UnsupportedConfigKind::FbTaskAssociation => "associating a function block with its own task is not supported yet",
            UnsupportedConfigKind::InstanceInit | UnsupportedConfigKind::InstanceInitLocated => "a VAR_CONFIG value is checked but not applied yet, so it never reaches the instance",
        }
    }

    pub open spec fn spec_note(self) -> Seq<char> {
        match self {
            UnsupportedConfigKind::ProgramConnection => "assign it in the program body instead"@,
            UnsupportedConfigKind::FbTaskAssociation => "run the function block from its enclosing program's task"@,
            UnsupportedConfigKind::InstanceInit => "set the value in the variable's own declaration instead"@,
            UnsupportedConfigKind::InstanceInitLocated =>
                "a variable VAR_CONFIG locates starts at its type's default, or at the value its channel's own declaration gives it"@,
        }
    }

    /// What to do instead.
    pub fn note(self) -> (r: &'static str)
        ensures
            r@ == self.spec_note(),
    {
        match self {
            UnsupportedConfigKind::ProgramConnection => "assign it in the program body instead",
            UnsupportedConfigKind::FbTaskAssociation => "run the function block from its enclosing program's task",
            UnsupportedConfigKind::InstanceInit => "set the value in the variable's own declaration instead",
            UnsupportedConfigKind::InstanceInitLocated => "a variable VAR_CONFIG locates starts at its type's default, or at the value its channel's own declaration gives it",
        }
    }
}

/// Why a TASK cannot be scheduled.
#[derive(Clone, Copy, Debug, PartialEq, Eq, Structural)]
pub enum UnschedulableReason {
    /// `SINGLE := <event>`.
    EventDriven,
    /// Neither SINGLE nor INTERVAL.
    NoTrigger,
    /// INTERVAL names something whose value is not fixed at compile time.
    NonLiteralInterval,
    /// INTERVAL is zero.
    ZeroInterval,
}

impl UnschedulableReason {
    pub open spec fn spec_message(self) -> Seq<char> {
        match self {
            UnschedulableReason::EventDriven =>
                "event-driven tasks (SINGLE) are not supported yet; only cyclic tasks run"@,
            UnschedulableReason::NoTrigger => "a TASK needs an INTERVAL to run its programs"@,
            UnschedulableReason::NonLiteralInterval =>
                "INTERVAL must be a TIME literal or a CONSTANT global holding one"@,
            UnschedulableReason::ZeroInterval => "INTERVAL must be greater than zero"@,
        }
    }

    /// Which scheduling rule the task breaks.
    pub fn message(self) -> (r: &'static str)
        ensures
            r@ == self.spec_message(),
    {
        match self {
            UnschedulableReason::EventDriven => "event-driven tasks (SINGLE) are not supported yet; only cyclic tasks run",
            UnschedulableReason::NoTrigger => "a TASK needs an INTERVAL to run its programs",
            UnschedulableReason::NonLiteralInterval => "INTERVAL must be a TIME literal or a CONSTANT global holding one",
            UnschedulableReason::ZeroInterval => "INTERVAL must be greater than zero",
        }
    }

    pub open spec fn spec_note(self) -> Option<Seq<char>> {
        match self {
            UnschedulableReason::EventDriven => Some("use a cyclic period, e.g. `INTERVAL := T#10ms`"@),
            UnschedulableReason::NoTrigger => Some("add `INTERVAL := T#10ms`"@),
            UnschedulableReason::NonLiteralInterval => Some("declare the global `VAR_GLOBAL CONSTANT`"@),
            UnschedulableReason::ZeroInterval => None,
        }
    }

    /// What to write instead, where there is something to say.
    pub fn note(self) -> (r: Option<&'static str>)
        ensures
            match r {
                Some(s) => self.spec_note() == Some(s@),
                None => self.spec_note() is None,
            },
    {
        match self {
            UnschedulableReason::EventDriven => Some("use a cyclic period, e.g. `INTERVAL := T#10ms`"),
            UnschedulableReason::NoTrigger => Some("add `INTERVAL := T#10ms`"),
            UnschedulableReason::NonLiteralInterval => Some("declare the global `VAR_GLOBAL CONSTANT`"),
            UnschedulableReason::ZeroInterval => None,
        }
    }
}

/// A configuration error.
pub enum ConfigError {
    /// No configuration file at the root of the workspace.
    NoConfigFileFound { file: FileId, root_span: Span, workspace_folder: String },
    /// The workspace declares more than one CONFIGURATION.
    MultipleConfigurations {
        config: Named,
        /// Every OTHER configuration, so they can be reached from here.
        others: Vec<Named>,
    },
    /// The configuration declares more than one RESOURCE.
    MultipleResources {
        config: Named,
        /// Every resource name across the configuration's fragments, sorted.
        names: Vec<String>,
        span: Span,
    },
    /// A TASK or PROGRAM declared directly in a CONFIGURATION.
    TaskOrProgramOutsideResource(Span),
    MissingPriority(Span),
    /// A TASK's PRIORITY is not a number this compiler can represent.
    InvalidPriority { task: Named, value: String },
    IntervalAfterPriority(Span),
    SingleAfterInterval(Span),
    SingleAfterPriority(Span),
    /// A TASK the scheduler cannot honour.
    UnschedulableTask { task: Named, reason: UnschedulableReason },
    /// The task named in a `WITH <task>` clause does not exist in the config.
    UnknownTaskRef { task: Named },
    /// A PROGRAM instance carries no `WITH <task>`.
    ProgramWithoutTask { instance: Named },
    /// A VAR_CONFIG path's first segment matches no program instance.
    ConfigInstInitUnknownInstance { instance_name: Named },
    /// A VAR_CONFIG path names a field the resolved type lacks.
    ConfigInstInitFieldNotFound { field: Named, parent_type: String },
    /// A VAR_ACCESS declaration's type is not the referenced variable's.
    AccessDeclTypeMismatch { var_origin: Named, spec: Span, expected: String, actual: String },
    /// A configuration construct that is parsed but does nothing.
    UnsupportedConfigElement { expr: Span, kind: UnsupportedConfigKind },
    /// A direct variable that nothing maps to an I/O image.
    DirectVariableUnsupported { site: Span, address: String, why: UnlocatableAddress },
    /// A partial access whose size character names no slice.
    UnknownMultibitsAccess { expr: Span, access: String },
    /// A write to a variable declared `AT` an input address.
    WriteToInputLocation { site: Span, address: String, via: InputWriteRoute },
    /// `RETAIN` on a variable located in `%I` or `%Q`.
    RetainOnIoLocation { var: Named, address: String },
    /// Two declarations bound to the same address.
    DuplicateLocation { var: Named, other: Named, address: String },
    /// A located variable whose type is not as wide as its address.
    LocationWidthMismatch {
        var: Named,
        address: String,
        address_bits: usize,
        declared_bits: Option<usize>,
        declared: String,
    },
    /// A part of a wider address used as if it had storage of its own.
    PartOfWiderAddress { site: Span, address: String, owner: String, usage: WiderAddressUse },
    /// A VAR_CONFIG entry's `AT`, which cannot locate the variable it names.
    ConfigLocationRefused { expr: Span, var: String, address: String, why: ConfigLocationRefusal },
    /// A partly located variable that VAR_CONFIG does not locate, or cannot.
    PartlyLocatedUnlocated(PartlyUnlocated),
    /// A VAR_CONFIG entry that resolves but cannot be taken as written.
    ConfigEntryRefused { expr: Span, why: ConfigEntryRefusal },
}

/// Whether the text ends with `*`: a partial address.
pub open spec fn ends_with_star(s: Seq<char>) -> bool {
    s.len() > 0 && s.last() == '*'
}

fn string_ends_with_star(s: &String) -> (r: bool)
    ensures
        r == ends_with_star(s@),
{
    let t = s.as_str();
    let n = t.unicode_len();
    n > 0 && t.get_char(n - 1) == '*'
}

/// The views of a list of named elements.
pub open spec fn named_views(v: Seq<Named>) -> Seq<NamedView> {
    v.map_values(|n: Named| n@)
}

/// `d` with one "is declared here" location per configuration in `others`.
pub open spec fn declared_here(d: DiagnosticView, others: Seq<NamedView>) -> DiagnosticView
    decreases others.len(),
{
    if others.len() == 0 {
        d
    } else {
        declared_here(d, others.drop_last()).rel(
            "'"@ + others.last().name + "' is declared here"@,
            others.last().file,
            others.last().name_span,
        )
    }
}

/// The types a located variable of `bits` bits can be declared as.
pub open spec fn width_examples(bits: nat) -> Seq<char> {
    if bits == 1 { "BOOL"@ }
    else if bits == 8 { "BYTE, SINT or USINT"@ }
    else if bits == 16 { "WORD, INT or UINT"@ }
    else if bits == 32 { "DWORD, DINT or REAL"@ }
    else { "LWORD, LINT or LREAL"@ }
}

fn width_examples_str(bits: usize) -> (r: &'static str)
    ensures
        r@ == width_examples(bits as nat),
{
    if bits == 1 { "BOOL" }
    else if bits == 8 { "BYTE, SINT or USINT" }
    else if bits == 16 { "WORD, INT or UINT" }
    else if bits == 32 { "DWORD, DINT or REAL" }
    else { "LWORD, LINT or LREAL" }
}

/// `n` followed by `" bit"`, and an `s` unless `n` is 1.
pub open spec fn bit_count(n: nat) -> Seq<char> {
    decimal(n) + " bit"@ + (if n == 1 { ""@ } else { "s"@ })
}

fn bit_count_string(n: usize) -> (r: String)
    ensures
        r@ == bit_count(n as nat),
{
    let d = usize_to_string(n);
    cat3(d.as_str(), " bit", if n == 1 { "" } else { "s" })
}

impl ConfigError {
    pub open spec fn spec_code(&self) -> Seq<char> {
        match self {
            ConfigError::NoConfigFileFound { .. } => "E1401"@,
            ConfigError::MultipleConfigurations { .. } => "E1402"@,
            ConfigError::MultipleResources { .. } => "E1403"@,
            ConfigError::TaskOrProgramOutsideResource(_) => "E1404"@,
            ConfigError::MissingPriority(_) => "E1405"@,
            ConfigError::InvalidPriority { .. } => "E1406"@,
            ConfigError::IntervalAfterPriority(_) => "E1407"@,
            ConfigError::SingleAfterInterval(_) => "E1408"@,
            ConfigError::SingleAfterPriority(_) => "E1409"@,
            ConfigError::UnschedulableTask { .. } => "E1410"@,
            ConfigError::UnknownTaskRef { .. } => "E1411"@,
            ConfigError::ProgramWithoutTask { .. } => "E1412"@,
            ConfigError::ConfigInstInitUnknownInstance { .. } => "E1413"@,
            ConfigError::ConfigInstInitFieldNotFound { .. } => "E1414"@,
            ConfigError::AccessDeclTypeMismatch { .. } => "E1415"@,
            ConfigError::UnsupportedConfigElement { .. } => "E1416"@,
            ConfigError::DirectVariableUnsupported { .. } => "E1417"@,
            ConfigError::UnknownMultibitsAccess { .. } => "E1418"@,
            ConfigError::WriteToInputLocation { .. } => "E1419"@,
            ConfigError::RetainOnIoLocation { .. } => "E1420"@,
            ConfigError::DuplicateLocation { .. } => "E1421"@,
            ConfigError::LocationWidthMismatch { .. } => "E1422"@,
            ConfigError::PartOfWiderAddress { .. } => "E1423"@,
            ConfigError::ConfigLocationRefused { .. } => "E1424"@,
            ConfigError::PartlyLocatedUnlocated(_) => "E1425"@,
            ConfigError::ConfigEntryRefused { .. } => "E1426"@,
        }
    }

    /// The stable code of the error.
    pub fn code(&self) -> (r: &'static str)
        ensures
            r@ == self.spec_code(),
    {
        match self {
            ConfigError::NoConfigFileFound { .. } => "E1401",
            ConfigError::MultipleConfigurations { .. } => "E1402",
            ConfigError::MultipleResources { .. } => "E1403",
            ConfigError::TaskOrProgramOutsideResource(_) => "E1404",
            ConfigError::MissingPriority(_) => "E1405",
            ConfigError::InvalidPriority { .. } => "E1406",
            ConfigError::IntervalAfterPriority(_) => "E1407",
            ConfigError::SingleAfterInterval(_) => "E1408",
            ConfigError::SingleAfterPriority(_) => "E1409",
            ConfigError::UnschedulableTask { .. } => "E1410",
            ConfigError::UnknownTaskRef { .. } => "E1411",
            ConfigError::ProgramWithoutTask { .. } => "E1412",
            ConfigError::ConfigInstInitUnknownInstance { .. } => "E1413",
            ConfigError::ConfigInstInitFieldNotFound { .. } => "E1414",
            ConfigError::AccessDeclTypeMismatch { .. } => "E1415",
            ConfigError::UnsupportedConfigElement { .. } => "E1416",
            ConfigError::DirectVariableUnsupported { .. } => "E1417",
            ConfigError::UnknownMultibitsAccess { .. } => "E1418",
            ConfigError::WriteToInputLocation { .. } => "E1419",
            ConfigError::RetainOnIoLocation { .. } => "E1420",
            ConfigError::DuplicateLocation { .. } => "E1421",
            ConfigError::LocationWidthMismatch { .. } => "E1422",
            ConfigError::PartOfWiderAddress { .. } => "E1423",
            ConfigError::ConfigLocationRefused { .. } => "E1424",
            ConfigError::PartlyLocatedUnlocated(_) => "E1425",
            ConfigError::ConfigEntryRefused { .. } => "E1426",
        }
    }

    pub open spec fn spec_description(&self) -> Seq<char> {
        match self {
            ConfigError::NoConfigFileFound { .. } => "configuration error"@,
            ConfigError::MultipleConfigurations { .. } => "configuration error"@,
            ConfigError::MultipleResources { .. } => "configuration error"@,
            ConfigError::TaskOrProgramOutsideResource(_) => "syntax"@,
            ConfigError::MissingPriority(_) => "syntax"@,
            ConfigError::InvalidPriority { .. } => "configuration error"@,
            ConfigError::IntervalAfterPriority(_) => "syntax"@,
            ConfigError::SingleAfterInterval(_) => "syntax"@,
            ConfigError::SingleAfterPriority(_) => "syntax"@,
            ConfigError::UnschedulableTask { .. } => "task cannot be scheduled"@,
            ConfigError::UnknownTaskRef { .. } => "configuration error"@,
            ConfigError::ProgramWithoutTask { .. } => "program instance never runs"@,
            ConfigError::ConfigInstInitUnknownInstance { .. } => "configuration error"@,
            ConfigError::ConfigInstInitFieldNotFound { .. } => "configuration error"@,
            ConfigError::AccessDeclTypeMismatch { .. } => "access declaration type mismatch"@,
            ConfigError::UnsupportedConfigElement { .. } => "unsupported configuration element"@,
            ConfigError::DirectVariableUnsupported { .. } => "address cannot be located"@,
            ConfigError::UnknownMultibitsAccess { .. } => "unknown multibit access size"@,
            ConfigError::WriteToInputLocation { .. } => "write to an input location"@,
            ConfigError::RetainOnIoLocation { .. } => "RETAIN on an I/O location"@,
            ConfigError::DuplicateLocation { .. } => "duplicate location"@,
            ConfigError::LocationWidthMismatch { .. } => "location type mismatch"@,
            ConfigError::PartOfWiderAddress { .. } => "part of a wider address"@,
            ConfigError::ConfigLocationRefused { .. } => "location refused"@,
            ConfigError::PartlyLocatedUnlocated(_) => "variable not located"@,
            ConfigError::ConfigEntryRefused { .. } => "configuration entry refused"@,
        }
    }

    /// The short description of the error's kind.
    pub fn description(&self) -> (r: &'static str)
        ensures
            r@ == self.spec_description(),
    {
        match self {
            ConfigError::NoConfigFileFound { .. } => "configuration error",
            ConfigError::MultipleConfigurations { .. } => "configuration error",
            ConfigError::MultipleResources { .. } => "configuration error",
            ConfigError::TaskOrProgramOutsideResource(_) => "syntax",
            ConfigError::MissingPriority(_) => "syntax",
            ConfigError::InvalidPriority { .. } => "configuration error",
            ConfigError::IntervalAfterPriority(_) => "syntax",
            ConfigError::SingleAfterInterval(_) => "syntax",
            ConfigError::SingleAfterPriority(_) => "syntax",
            ConfigError::UnschedulableTask { .. } => "task cannot be scheduled",
            ConfigError::UnknownTaskRef { .. } => "configuration error",
            ConfigError::ProgramWithoutTask { .. } => "program instance never runs",
            ConfigError::ConfigInstInitUnknownInstance { .. } => "configuration error",
            ConfigError::ConfigInstInitFieldNotFound { .. } => "configuration error",
            ConfigError::AccessDeclTypeMismatch { .. } => "access declaration type mismatch",
            ConfigError::UnsupportedConfigElement { .. } => "unsupported configuration element",
            ConfigError::DirectVariableUnsupported { .. } => "address cannot be located",
            ConfigError::UnknownMultibitsAccess { .. } => "unknown multibit access size",
            ConfigError::WriteToInputLocation { .. } => "write to an input location",
            ConfigError::RetainOnIoLocation { .. } => "RETAIN on an I/O location",
            ConfigError::DuplicateLocation { .. } => "duplicate location",
            ConfigError::LocationWidthMismatch { .. } => "location type mismatch",
            ConfigError::PartOfWiderAddress { .. } => "part of a wider address",
            ConfigError::ConfigLocationRefused { .. } => "location refused",
            ConfigError::PartlyLocatedUnlocated(_) => "variable not located",
            ConfigError::ConfigEntryRefused { .. } => "configuration entry refused",
        }
    }

    /// An error diagnostic of this error at `span`.
    pub open spec fn err(&self, message: Seq<char>, span: Span) -> DiagnosticView {
        DiagnosticView::error(message, self.spec_code(), self.spec_description(), span)
    }

    /// The diagnostic this error renders to.
    pub open spec fn spec_to_diagnostic(&self) -> DiagnosticView {
        match self {
            ConfigError::NoConfigFileFound { file, root_span, workspace_folder } =>
                DiagnosticView::base("no configuration file found"@, Some(Severity::Hint), self.spec_code(),
                    self.spec_description(), *root_span)
                    .tagged(seq![Tag::Unnecessary])
                    .note("a configuration file is required at the root of your workspace (inside '"@
                        + workspace_folder@ + "')"@),
            ConfigError::MultipleConfigurations { config, others } => declared_here(
                self.err("a workspace can only have one CONFIGURATION; this one declares "@
                    + decimal(others@.len() + 1), config.name_span),
                named_views(others@),
            ),
            ConfigError::MultipleResources { names, span, .. } => self.err(
                "a deployment drives one RESOURCE; this configuration declares "@ + decimal(names@.len())
                    + " ("@ + join(texts(names@), ", "@) + "); deploy one RESOURCE per runtime"@,
                *span,
            ),
            ConfigError::TaskOrProgramOutsideResource(span) =>
                self.err("TASK and PROGRAM must be declared inside a RESOURCE"@, *span)
                    .note("wrap them in a RESOURCE <name> ON <cpu> ... END_RESOURCE block"@),
            ConfigError::MissingPriority(span) => self.err("PRIORITY is required in TASK configuration"@, *span),
            ConfigError::InvalidPriority { task, value } =>
                self.err("task '"@ + task.name@ + "' has an unusable PRIORITY '"@ + value@ + "'"@, task.span)
                    .note("PRIORITY must fit in a 32-bit unsigned integer; 0 is the most urgent"@),
            ConfigError::IntervalAfterPriority(span) => self.err("INTERVAL cannot be declared after PRIORITY"@, *span),
            ConfigError::SingleAfterInterval(span) => self.err("SINGLE cannot be declared after INTERVAL"@, *span),
            ConfigError::SingleAfterPriority(span) => self.err("SINGLE cannot be declared after PRIORITY"@, *span),
            ConfigError::UnschedulableTask { task, reason } => {
                let d = self.err("task '"@ + task.name@ + "' cannot be scheduled: "@ + reason.spec_message(), task.span);
                match reason.spec_note() {
                    Some(n) => d.note(n),
                    None => d,
                }
            },
            ConfigError::UnknownTaskRef { task } =>
                self.err("task '"@ + task.name@ + "' not found in this configuration"@, task.span),
            ConfigError::ProgramWithoutTask { instance } => self.err(
                "program instance '"@ + instance.name@ + "' has no WITH <task>, so it will never run"@,
                instance.span,
            ),
            ConfigError::ConfigInstInitUnknownInstance { instance_name } => self.err(
                "no program instance '"@ + instance_name.name@ + "' found in this configuration"@,
                instance_name.span,
            ),
            ConfigError::ConfigInstInitFieldNotFound { field, parent_type } =>
                self.err("'"@ + parent_type@ + "' has no field named '"@ + field.name@ + "'"@, field.span),
            ConfigError::AccessDeclTypeMismatch { var_origin, spec, expected, actual } => self.err(
                "access declaration expects '"@ + expected@ + "', but variable has type '"@ + actual@ + "'"@,
                *spec,
            ).rel("variable '"@ + var_origin.name@ + "' is declared here"@, var_origin.file, var_origin.name_span),
            ConfigError::UnsupportedConfigElement { expr, kind } =>
                self.err(kind.spec_message(), *expr).note(kind.spec_note()),
            ConfigError::DirectVariableUnsupported { site, address, why } =>
                self.err(why.spec_message(address@), *site).note(why.spec_note()),
            ConfigError::UnknownMultibitsAccess { expr, access } =>
                self.err("'%"@ + access@ + "' names no access size (expected X, B, W, D or L)"@, *expr),
            ConfigError::WriteToInputLocation { site, address, via } => match via {
                InputWriteRoute::Assignment => self.err(
                    "'"@ + address@ + "' is an input: it is written by the host, not by the program"@,
                    *site,
                ).note("the host copies the input image in before each scan, so this write is overwritten before anything can read it"@),
                InputWriteRoute::Reference => self.err(
                    "'"@ + address@ + "' is an input, so a writable reference to it cannot be taken"@,
                    *site,
                ).note("a REF_TO is a writable pointer and nothing tracks what is stored through it, so the reference is refused where it is taken"@),
                InputWriteRoute::Initializer => self.err(
                    "'"@ + address@ + "' is an input, so an initial value is overwritten before anything reads it"@,
                    *site,
                ).note("the host writes the input image before every scan, the first one included"@),
            },
            ConfigError::RetainOnIoLocation { var, address } => self.err(
                "'"@ + var.name@ + "' is located at '"@ + address@ + "' and cannot be RETAIN"@,
                var.span,
            ).note(if ends_with_star(address@) {
                "a variable VAR_CONFIG locates points at its channel and has no storage of its own to retain; to persist a marker, declare it located in full, RETAIN, in a PROGRAM or as a VAR_GLOBAL"@
            } else {
                "the retain band is restored at startup, so a retained I/O image would run the first scan on the values of the last power cycle; only '%M' may persist"@
            }),
            ConfigError::DuplicateLocation { var, other, address } => self.err(
                "'"@ + var.name@ + "' is located at '"@ + address@ + "', which '"@ + other.name@ + "' also claims"@,
                var.span,
            ).rel("'"@ + other.name@ + "' is located here"@, other.file, other.span)
                .note("an address is one channel, and each declaration is given storage of its own, so the two would never see each other's value; name the one variable from wherever it is needed"@),
            ConfigError::LocationWidthMismatch { var, address, address_bits, declared_bits, declared } => {
                let bits = bit_count(*address_bits as nat);
                let head = "'"@ + address@ + "' is "@ + bits + ", but '"@ + var.name@ + "' is declared '"@ + declared@;
                let message = match declared_bits {
                    Some(n) => head + "', which is "@ + decimal(*n as nat),
                    None => head + "', which is not an elementary type of any width"@,
                };
                self.err(message, var.span).note(
                    "a located variable holds one value as wide as its address; declare it as an elementary type of "@
                        + bits + ", such as "@ + width_examples(*address_bits as nat),
                )
            },
            ConfigError::PartOfWiderAddress { site, address, owner, usage } =>
                self.err(usage.spec_message(address@, owner@), *site).note(usage.spec_note(address@, owner@)),
            ConfigError::ConfigLocationRefused { expr, var, address, why } =>
                self.err(why.spec_message(var@, address@), *expr).note(why.spec_note()),
            ConfigError::ConfigEntryRefused { expr, why } => match why {
                ConfigEntryRefusal::PathStep => self.err(
                    "a VAR_CONFIG path names instances and variables, not an element or what a reference points at"@,
                    *expr,
                ).note("name the variable itself; an element of an array or a referenced value cannot be configured"@),
                ConfigEntryRefusal::TypeMismatch { var, written, declared } => self.err(
                    "the entry says '"@ + written@ + "', but '"@ + var@ + "' is declared '"@ + declared@ + "'"@,
                    *expr,
                ).note("the entry repeats the variable's type; write the declared one"@),
            },
            ConfigError::PartlyLocatedUnlocated(PartlyUnlocated::Missing { instance, path, address }) => self.err(
                "'"@ + path@ + "' is declared AT "@ + address@ + ", and no VAR_CONFIG entry locates it"@,
                instance.span,
            ).note("each instance is given its address in the CONFIGURATION's VAR_CONFIG, as in 'Res.P1.fb.x AT %IX0.0 : BOOL;'"@),
            ConfigError::PartlyLocatedUnlocated(PartlyUnlocated::Unreachable { var, member, address, place }) => {
                let whose = "'"@ + var.name@ + "' holds '"@ + member@ + "', declared AT "@ + address@;
                let message = match place {
                    UnreachablePlace::Array => whose + ", in the elements of an array, which VAR_CONFIG cannot name"@,
                    UnreachablePlace::Global => whose + ", in a VAR_GLOBAL, which VAR_CONFIG cannot name"@,
                    UnreachablePlace::PerCall => whose + ", in an instance made for each call, which VAR_CONFIG cannot name"@,
                };
                self.err(message, var.span).note(
                    "a VAR_CONFIG path names a PROGRAM instance and the instances it holds by name; hold this one there"@,
                )
            },
        }
    }

    fn error_at(&self, message: String, span: Span) -> (d: Diagnostic)
        ensures
            d@ == self.err(message@, span),
    {
        Diagnostic::error(message, self.code(), self.description(), span)
    }

    /// Renders the error as a diagnostic.
    #[verifier::rlimit(50)]
    pub fn to_diagnostic(&self) -> (d: Diagnostic)
        ensures
            d@ == self.spec_to_diagnostic(),
    {
        match self {
            ConfigError::NoConfigFileFound { file, root_span, workspace_folder } => {
                let mut d = Diagnostic::new(
                    String::from_str("no configuration file found"),
                    Some(Severity::Hint),
                    self.code(),
                    self.description(),
                    *root_span,
                );
                let tags = vec![Tag::Unnecessary];
                assert(tags@ =~= seq![Tag::Unnecessary]);
                d.with_tags(tags);
                d.with_note(cat3(
                    "a configuration file is required at the root of your workspace (inside '",
                    workspace_folder.as_str(),
                    "')",
                ));
                d
            },
            ConfigError::MultipleConfigurations { config, others } => {
                let count = u128_to_string(others.len() as u128 + 1);
                let mut d = self.error_at(
                    cat2("a workspace can only have one CONFIGURATION; this one declares ", count.as_str()),
                    config.name_span,
                );
                let ghost base = d@;
                let n = others.len();
                let mut i: usize = 0;
                while i < n
                    invariant
                        n == others@.len(),
                        i <= n,
                        d@ == declared_here(base, named_views(others@).take(i as int)),
                    decreases n - i,
                {
                    assert(named_views(others@).take(i + 1).drop_last() =~= named_views(others@).take(i as int));
                    let o = &others[i];
                    d.with_related_at(cat3("'", o.name.as_str(), "' is declared here"), o.file, o.name_span);
                    i = i + 1;
                }
                assert(named_views(others@).take(n as int) =~= named_views(others@));
                d
            },
            ConfigError::MultipleResources { names, span, .. } => {
                let count = usize_to_string(names.len());
                let list = join_strings(names, ", ");
                self.error_at(
                    cat5(
                        "a deployment drives one RESOURCE; this configuration declares ",
                        count.as_str(),
                        " (",
                        list.as_str(),
                        "); deploy one RESOURCE per runtime",
                    ),
                    *span,
                )
            },
            ConfigError::TaskOrProgramOutsideResource(span) => {
                let mut d = self.error_at(String::from_str("TASK and PROGRAM must be declared inside a RESOURCE"), *span);
                d.with_note(String::from_str("wrap them in a RESOURCE <name> ON <cpu> ... END_RESOURCE block"));
                d
            },
            ConfigError::MissingPriority(span) =>
                self.error_at(String::from_str("PRIORITY is required in TASK configuration"), *span),
            ConfigError::InvalidPriority { task, value } => {
                let mut d = self.error_at(
                    cat5("task '", task.name.as_str(), "' has an unusable PRIORITY '", value.as_str(), "'"),
                    task.span,
                );
                d.with_note(String::from_str("PRIORITY must fit in a 32-bit unsigned integer; 0 is the most urgent"));
                d
            },
            ConfigError::IntervalAfterPriority(span) =>
                self.error_at(String::from_str("INTERVAL cannot be declared after PRIORITY"), *span),
            ConfigError::SingleAfterInterval(span) =>
                self.error_at(String::from_str("SINGLE cannot be declared after INTERVAL"), *span),
            ConfigError::SingleAfterPriority(span) =>
                self.error_at(String::from_str("SINGLE cannot be declared after PRIORITY"), *span),
            ConfigError::UnschedulableTask { task, reason } => {
                let mut d = self.error_at(
                    cat4("task '", task.name.as_str(), "' cannot be scheduled: ", reason.message()),
                    task.span,
                );
                match reason.note() {
                    Some(n) => d.with_note(String::from_str(n)),
                    None => {},
                }
                d
            },
            ConfigError::UnknownTaskRef { task } => self.error_at(
                cat3("task '", task.name.as_str(), "' not found in this configuration"),
                task.span,
            ),
            ConfigError::ProgramWithoutTask { instance } => self.error_at(
                cat3("program instance '", instance.name.as_str(), "' has no WITH <task>, so it will never run"),
                instance.span,
            ),
            ConfigError::ConfigInstInitUnknownInstance { instance_name } => self.error_at(
                cat3("no program instance '", instance_name.name.as_str(), "' found in this configuration"),
                instance_name.span,
            ),
            ConfigError::ConfigInstInitFieldNotFound { field, parent_type } => self.error_at(
                cat5("'", parent_type.as_str(), "' has no field named '", field.name.as_str(), "'"),
                field.span,
            ),
            ConfigError::AccessDeclTypeMismatch { var_origin, spec, expected, actual } => {
                let mut d = self.error_at(
                    cat5(
                        "access declaration expects '",
                        expected.as_str(),
                        "', but variable has type '",
                        actual.as_str(),
                        "'",
                    ),
                    *spec,
                );
                d.with_related_at(
                    cat3("variable '", var_origin.name.as_str(), "' is declared here"),
                    var_origin.file,
                    var_origin.name_span,
                );
                d
            },
            ConfigError::UnsupportedConfigElement { expr, kind } => {
                let mut d = self.error_at(String::from_str(kind.message()), *expr);
                d.with_note(String::from_str(kind.note()));
                d
            },
            ConfigError::DirectVariableUnsupported { site, address, why } => {
                let mut d = self.error_at(why.message(address.as_str()), *site);
                d.with_note(String::from_str(why.note()));
                d
            },
            ConfigError::UnknownMultibitsAccess { expr, access } => self.error_at(
                cat3("'%", access.as_str(), "' names no access size (expected X, B, W, D or L)"),
                *expr,
            ),
            ConfigError::WriteToInputLocation { site, address, via } => {
                let message = match via {
                    InputWriteRoute::Assignment => cat3(
                        "'",
                        address.as_str(),
                        "' is an input: it is written by the host, not by the program",
                    ),
                    InputWriteRoute::Reference => cat3(
                        "'",
                        address.as_str(),
                        "' is an input, so a writable reference to it cannot be taken",
                    ),
                    InputWriteRoute::Initializer => cat3(
                        "'",
                        address.as_str(),
                        "' is an input, so an initial value is overwritten before anything reads it",
                    ),
                };
                let mut d = self.error_at(message, *site);
                let note = match via {
                    InputWriteRoute::Assignment => "the host copies the input image in before each scan, so this write is overwritten before anything can read it",
                    InputWriteRoute::Reference => "a REF_TO is a writable pointer and nothing tracks what is stored through it, so the reference is refused where it is taken",
                    InputWriteRoute::Initializer => "the host writes the input image before every scan, the first one included",
                };
                d.with_note(String::from_str(note));
                d
            },
            ConfigError::RetainOnIoLocation { var, address } => {
                let mut d = self.error_at(
                    cat5("'", var.name.as_str(), "' is located at '", address.as_str(), "' and cannot be RETAIN"),
                    var.span,
                );
                let note = if string_ends_with_star(address) {
                    "a variable VAR_CONFIG locates points at its channel and has no storage of its own to retain; to persist a marker, declare it located in full, RETAIN, in a PROGRAM or as a VAR_GLOBAL"
                } else {
                    "the retain band is restored at startup, so a retained I/O image would run the first scan on the values of the last power cycle; only '%M' may persist"
                };
                d.with_note(String::from_str(note));
                d
            },
            ConfigError::DuplicateLocation { var, other, address } => {
                let mut d = self.error_at(
                    cat7(
                        "'",
                        var.name.as_str(),
                        "' is located at '",
                        address.as_str(),
                        "', which '",
                        other.name.as_str(),
                        "' also claims",
                    ),
                    var.span,
                );
                d.with_related_at(cat3("'", other.name.as_str(), "' is located here"), other.file, other.span);
                d.with_note(String::from_str("an address is one channel, and each declaration is given storage of its own, so the two would never see each other's value; name the one variable from wherever it is needed"));
                d
            },
            ConfigError::LocationWidthMismatch { var, address, address_bits, declared_bits, declared } => {
                let bits = bit_count_string(*address_bits);
                let head = cat7(
                    "'",
                    address.as_str(),
                    "' is ",
                    bits.as_str(),
                    ", but '",
                    var.name.as_str(),
                    "' is declared '",
                ).concat(declared.as_str());
                let message = match declared_bits {
                    Some(n) => {
                        let dn = usize_to_string(*n);
                        cat3(head.as_str(), "', which is ", dn.as_str())
                    },
                    None => cat2(head.as_str(), "', which is not an elementary type of any width"),
                };
                let mut d = self.error_at(message, var.span);
                d.with_note(cat4(
                    "a located variable holds one value as wide as its address; declare it as an elementary type of ",
                    bits.as_str(),
                    ", such as ",
                    width_examples_str(*address_bits),
                ));
                d
            },
            ConfigError::PartOfWiderAddress { site, address, owner, usage } => {
                let mut d = self.error_at(usage.message(address.as_str(), owner.as_str()), *site);
                d.with_note(usage.note(address.as_str(), owner.as_str()));
                d
            },
            ConfigError::ConfigLocationRefused { expr, var, address, why } => {
                let mut d = self.error_at(why.message(var.as_str(), address.as_str()), *expr);
                d.with_note(String::from_str(why.note()));
                d
            },
            ConfigError::ConfigEntryRefused { expr, why } => match why {
                ConfigEntryRefusal::PathStep => {
                    let mut d = self.error_at(
                        String::from_str("a VAR_CONFIG path names instances and variables, not an element or what a reference points at"),
                        *expr,
                    );
                    d.with_note(String::from_str("name the variable itself; an element of an array or a referenced value cannot be configured"));
                    d
                },
                ConfigEntryRefusal::TypeMismatch { var, written, declared } => {
                    let mut d = self.error_at(
                        cat7(
                            "the entry says '",
                            written.as_str(),
                            "', but '",
                            var.as_str(),
                            "' is declared '",
                            declared.as_str(),
                            "'",
                        ),
                        *expr,
                    );
                    d.with_note(String::from_str("the entry repeats the variable's type; write the declared one"));
                    d
                },
            },
            ConfigError::PartlyLocatedUnlocated(PartlyUnlocated::Missing { instance, path, address }) => {
                let mut d = self.error_at(
                    cat5(
                        "'",
                        path.as_str(),
                        "' is declared AT ",
                        address.as_str(),
                        ", and no VAR_CONFIG entry locates it",
                    ),
                    instance.span,
                );
                d.with_note(String::from_str("each instance is given its address in the CONFIGURATION's VAR_CONFIG, as in 'Res.P1.fb.x AT %IX0.0 : BOOL;'"));
                d
            },
            ConfigError::PartlyLocatedUnlocated(PartlyUnlocated::Unreachable { var, member, address, place }) => {
                let whose = cat6("'", var.name.as_str(), "' holds '", member.as_str(), "', declared AT ", address.as_str());
                let tail = match place {
                    UnreachablePlace::Array => ", in the elements of an array, which VAR_CONFIG cannot name",
                    UnreachablePlace::Global => ", in a VAR_GLOBAL, which VAR_CONFIG cannot name",
                    UnreachablePlace::PerCall => ", in an instance made for each call, which VAR_CONFIG cannot name",
                };
                let mut d = self.error_at(cat2(whose.as_str(), tail), var.span);
                d.with_note(String::from_str("a VAR_CONFIG path names a PROGRAM instance and the instances it holds by name; hold this one there"));
                d
            },
        }
    }
}

/// A location claimed twice is reported on the variable the error is on,
/// and points at the other claimant: in the other variable's file, at its
/// span.
pub proof fn law_duplicate_location_points_at_the_other_claimant(var: Named, other: Named, address: String)
    ensures
        ({
            let d = (ConfigError::DuplicateLocation { var: var, other: other, address: address }).spec_to_diagnostic();
            &&& d.message == "'"@ + var.name@ + "' is located at '"@ + address@ + "', which '"@ + other.name@ + "' also claims"@
            &&& d.span == var.span
            &&& d.related.len() == 1
            &&& d.related[0].message == "'"@ + other.name@ + "' is located here"@
            &&& d.related[0].file == other.file
            &&& d.related[0].span == other.span
        }),
{
}

/// Pointing at other declarations leaves a diagnostic's message, span and
/// severity as they are.
proof fn lemma_declared_here_keeps_head(d: DiagnosticView, others: Seq<NamedView>)
    ensures
        declared_here(d, others).message == d.message,
        declared_here(d, others).span == d.span,
        declared_here(d, others).severity == d.severity,
    decreases others.len(),
{
    if others.len() > 0 {
        lemma_declared_here_keeps_head(d, others.drop_last());
    }
}

/// Each kind of `ConfigError` is reported at the span of what it concerns, with
/// its message and severity, whatever names, spans and texts it holds; a
/// kind whose diagnostic is built directly also carries exactly the
/// related locations, notes, tags, source and quick fixes listed.
pub proof fn law_config_error_rendering(this: ConfigError)
    ensures
        match this {
            ConfigError::NoConfigFileFound { file, root_span, workspace_folder } => {
                let d = this.spec_to_diagnostic();
                &&& d.message == "no configuration file found"@
                &&& d.span == root_span
                &&& d.severity == Some(Severity::Hint)
                &&& d.related == Seq::<RelatedView>::empty()
                &&& d.notes == Seq::<Seq<char>>::empty().push("a configuration file is required at the root of your workspace (inside '"@ + workspace_folder@ + "')"@)
                &&& d.tags == seq![Tag::Unnecessary]
                &&& d.source == None::<Seq<char>>
                &&& d.fixes == Seq::<FixView>::empty()
            },
            ConfigError::MultipleConfigurations { config, others } => {
                let d = this.spec_to_diagnostic();
                &&& d.message == "a workspace can only have one CONFIGURATION; this one declares "@ + decimal(others@.len() + 1)
                &&& d.span == config.name_span
                &&& d.severity == Some(Severity::Error)
            },
            ConfigError::MultipleResources { names, span, .. } => {
                let d = this.spec_to_diagnostic();
                &&& d.message == "a deployment drives one RESOURCE; this configuration declares "@ + decimal(names@.len()) + " ("@ + join(texts(names@), ", "@) + "); deploy one RESOURCE per runtime"@
                &&& d.span == span
                &&& d.severity == Some(Severity::Error)
                &&& d.related == Seq::<RelatedView>::empty()
                &&& d.notes == Seq::<Seq<char>>::empty()
                &&& d.tags == Seq::<Tag>::empty()
                &&& d.source == None::<Seq<char>>
                &&& d.fixes == Seq::<FixView>::empty()
            },
            ConfigError::TaskOrProgramOutsideResource(span) => {
                let d = this.spec_to_diagnostic();
                &&& d.message == "TASK and PROGRAM must be declared inside a RESOURCE"@
                &&& d.span == span
                &&& d.severity == Some(Severity::Error)
                &&& d.related == Seq::<RelatedView>::empty()
                &&& d.notes == Seq::<Seq<char>>::empty().push("wrap them in a RESOURCE <name> ON <cpu> ... END_RESOURCE block"@)
                &&& d.tags == Seq::<Tag>::empty()
                &&& d.source == None::<Seq<char>>
                &&& d.fixes == Seq::<FixView>::empty()
            },
            ConfigError::MissingPriority(span) => {
                let d = this.spec_to_diagnostic();
                &&& d.message == "PRIORITY is required in TASK configuration"@
                &&& d.span == span
                &&& d.severity == Some(Severity::Error)
                &&& d.related == Seq::<RelatedView>::empty()
                &&& d.notes == Seq::<Seq<char>>::empty()
                &&& d.tags == Seq::<Tag>::empty()
                &&& d.source == None::<Seq<char>>
                &&& d.fixes == Seq::<FixView>::empty()
            },
            ConfigError::InvalidPriority { task, value } => {
                let d = this.spec_to_diagnostic();
                &&& d.message == "task '"@ + task.name@ + "' has an unusable PRIORITY '"@ + value@ + "'"@
                &&& d.span == task.span
                &&& d.severity == Some(Severity::Error)
                &&& d.related == Seq::<RelatedView>::empty()
                &&& d.notes == Seq::<Seq<char>>::empty().push("PRIORITY must fit in a 32-bit unsigned integer; 0 is the most urgent"@)
                &&& d.tags == Seq::<Tag>::empty()
                &&& d.source == None::<Seq<char>>
                &&& d.fixes == Seq::<FixView>::empty()
            },
            ConfigError::IntervalAfterPriority(span) => {
                let d = this.spec_to_diagnostic();
                &&& d.message == "INTERVAL cannot be declared after PRIORITY"@
                &&& d.span == span
                &&& d.severity == Some(Severity::Error)
                &&& d.related == Seq::<RelatedView>::empty()
                &&& d.notes == Seq::<Seq<char>>::empty()
                &&& d.tags == Seq::<Tag>::empty()
                &&& d.source == None::<Seq<char>>
                &&& d.fixes == Seq::<FixView>::empty()
            },
            ConfigError::SingleAfterInterval(span) => {
                let d = this.spec_to_diagnostic();
                &&& d.message == "SINGLE cannot be declared after INTERVAL"@
                &&& d.span == span
                &&& d.severity == Some(Severity::Error)
                &&& d.related == Seq::<RelatedView>::empty()
                &&& d.notes == Seq::<Seq<char>>::empty()
                &&& d.tags == Seq::<Tag>::empty()
                &&& d.source == None::<Seq<char>>
                &&& d.fixes == Seq::<FixView>::empty()
            },
            ConfigError::SingleAfterPriority(span) => {
                let d = this.spec_to_diagnostic();
                &&& d.message == "SINGLE cannot be declared after PRIORITY"@
                &&& d.span == span
                &&& d.severity == Some(Severity::Error)
                &&& d.related == Seq::<RelatedView>::empty()
                &&& d.notes == Seq::<Seq<char>>::empty()
                &&& d.tags == Seq::<Tag>::empty()
                &&& d.source == None::<Seq<char>>
                &&& d.fixes == Seq::<FixView>::empty()
            },
            ConfigError::UnschedulableTask { task, reason } => {
                let d = this.spec_to_diagnostic();
                &&& d.message == "task '"@ + task.name@ + "' cannot be scheduled: "@ + reason.spec_message()
                &&& d.span == task.span
                &&& d.severity == Some(Severity::Error)
            },
            ConfigError::UnknownTaskRef { task } => {
                let d = this.spec_to_diagnostic();
                &&& d.message == "task '"@ + task.name@ + "' not found in this configuration"@
                &&& d.span == task.span
                &&& d.severity == Some(Severity::Error)
                &&& d.related == Seq::<RelatedView>::empty()
                &&& d.notes == Seq::<Seq<char>>::empty()
                &&& d.tags == Seq::<Tag>::empty()
                &&& d.source == None::<Seq<char>>
                &&& d.fixes == Seq::<FixView>::empty()
            },
            ConfigError::ProgramWithoutTask { instance } => {
                let d = this.spec_to_diagnostic();
                &&& d.message == "program instance '"@ + instance.name@ + "' has no WITH <task>, so it will never run"@
                &&& d.span == instance.span
                &&& d.severity == Some(Severity::Error)
                &&& d.related == Seq::<RelatedView>::empty()
                &&& d.notes == Seq::<Seq<char>>::empty()
                &&& d.tags == Seq::<Tag>::empty()
                &&& d.source == None::<Seq<char>>
                &&& d.fixes == Seq::<FixView>::empty()
            },
            ConfigError::ConfigInstInitUnknownInstance { instance_name } => {
                let d = this.spec_to_diagnostic();
                &&& d.message == "no program instance '"@ + instance_name.name@ + "' found in this configuration"@
                &&& d.span == instance_name.span
                &&& d.severity == Some(Severity::Error)
                &&& d.related == Seq::<RelatedView>::empty()
                &&& d.notes == Seq::<Seq<char>>::empty()
                &&& d.tags == Seq::<Tag>::empty()
                &&& d.source == None::<Seq<char>>
                &&& d.fixes == Seq::<FixView>::empty()
            },
            ConfigError::ConfigInstInitFieldNotFound { field, parent_type } => {
                let d = this.spec_to_diagnostic();
                &&& d.message == "'"@ + parent_type@ + "' has no field named '"@ + field.name@ + "'"@
                &&& d.span == field.span
                &&& d.severity == Some(Severity::Error)
                &&& d.related == Seq::<RelatedView>::empty()
                &&& d.notes == Seq::<Seq<char>>::empty()
                &&& d.tags == Seq::<Tag>::empty()
                &&& d.source == None::<Seq<char>>
                &&& d.fixes == Seq::<FixView>::empty()
            },
            ConfigError::AccessDeclTypeMismatch { var_origin, spec, expected, actual } => {
                let d = this.spec_to_diagnostic();
                &&& d.message == "access declaration expects '"@ + expected@ + "', but variable has type '"@ + actual@ + "'"@
                &&& d.span == spec
                &&& d.severity == Some(Severity::Error)
                &&& d.related == Seq::<RelatedView>::empty().push(RelatedView { message: "variable '"@ + var_origin.name@ + "' is declared here"@, file: var_origin.file, span: var_origin.name_span })
                &&& d.notes == Seq::<Seq<char>>::empty()
                &&& d.tags == Seq::<Tag>::empty()
                &&& d.source == None::<Seq<char>>
                &&& d.fixes == Seq::<FixView>::empty()
            },
            ConfigError::UnsupportedConfigElement { expr, kind } => {
                let d = this.spec_to_diagnostic();
                &&& d.message == kind.spec_message()
                &&& d.span == expr
                &&& d.severity == Some(Severity::Error)
                &&& d.related == Seq::<RelatedView>::empty()
                &&& d.notes == Seq::<Seq<char>>::empty().push(kind.spec_note())
                &&& d.tags == Seq::<Tag>::empty()
                &&& d.source == None::<Seq<char>>
                &&& d.fixes == Seq::<FixView>::empty()
            },
            ConfigError::DirectVariableUnsupported { site, address, why } => {
                let d = this.spec_to_diagnostic();
                &&& d.message == why.spec_message(address@)
                &&& d.span == site
                &&& d.severity == Some(Severity::Error)
                &&& d.related == Seq::<RelatedView>::empty()
                &&& d.notes == Seq::<Seq<char>>::empty().push(why.spec_note())
                &&& d.tags == Seq::<Tag>::empty()
                &&& d.source == None::<Seq<char>>
                &&& d.fixes == Seq::<FixView>::empty()
            },
            ConfigError::UnknownMultibitsAccess { expr, access } => {
                let d = this.spec_to_diagnostic();
                &&& d.message == "'%"@ + access@ + "' names no access size (expected X, B, W, D or L)"@
                &&& d.span == expr
                &&& d.severity == Some(Severity::Error)
                &&& d.related == Seq::<RelatedView>::empty()
                &&& d.notes == Seq::<Seq<char>>::empty()
                &&& d.tags == Seq::<Tag>::empty()
                &&& d.source == None::<Seq<char>>
                &&& d.fixes == Seq::<FixView>::empty()
            },
            ConfigError::WriteToInputLocation { site, address, via } => {
                let d = this.spec_to_diagnostic();
                match via {
                    InputWriteRoute::Assignment => {
                        &&& d.message == "'"@ + address@ + "' is an input: it is written by the host, not by the program"@
                        &&& d.span == site
                        &&& d.severity == Some(Severity::Error)
                        &&& d.related == Seq::<RelatedView>::empty()
                        &&& d.notes == Seq::<Seq<char>>::empty().push("the host copies the input image in before each scan, so this write is overwritten before anything can read it"@)
                        &&& d.tags == Seq::<Tag>::empty()
                        &&& d.source == None::<Seq<char>>
                        &&& d.fixes == Seq::<FixView>::empty()
                    },
                    InputWriteRoute::Reference => {
                        &&& d.message == "'"@ + address@ + "' is an input, so a writable reference to it cannot be taken"@
                        &&& d.span == site
                        &&& d.severity == Some(Severity::Error)
                        &&& d.related == Seq::<RelatedView>::empty()
                        &&& d.notes == Seq::<Seq<char>>::empty().push("a REF_TO is a writable pointer and nothing tracks what is stored through it, so the reference is refused where it is taken"@)
                        &&& d.tags == Seq::<Tag>::empty()
                        &&& d.source == None::<Seq<char>>
                        &&& d.fixes == Seq::<FixView>::empty()
                    },
                    InputWriteRoute::Initializer => {
                        &&& d.message == "'"@ + address@ + "' is an input, so an initial value is overwritten before anything reads it"@
                        &&& d.span == site
                        &&& d.severity == Some(Severity::Error)
                        &&& d.related == Seq::<RelatedView>::empty()
                        &&& d.notes == Seq::<Seq<char>>::empty().push("the host writes the input image before every scan, the first one included"@)
                        &&& d.tags == Seq::<Tag>::empty()
                        &&& d.source == None::<Seq<char>>
                        &&& d.fixes == Seq::<FixView>::empty()
                    },
                }
            },
            ConfigError::RetainOnIoLocation { var, address } => {
                let d = this.spec_to_diagnostic();
                &&& d.message == "'"@ + var.name@ + "' is located at '"@ + address@ + "' and cannot be RETAIN"@
                &&& d.span == var.span
                &&& d.severity == Some(Severity::Error)
                &&& d.related == Seq::<RelatedView>::empty()
                &&& d.notes == Seq::<Seq<char>>::empty().push(if ends_with_star(address@) { "a variable VAR_CONFIG locates points at its channel and has no storage of its own to retain; to persist a marker, declare it located in full, RETAIN, in a PROGRAM or as a VAR_GLOBAL"@ } else { "the retain band is restored at startup, so a retained I/O image would run the first scan on the values of the last power cycle; only '%M' may persist"@ })
                &&& d.tags == Seq::<Tag>::empty()
                &&& d.source == None::<Seq<char>>
                &&& d.fixes == Seq::<FixView>::empty()
            },
            ConfigError::DuplicateLocation { var, other, address } => {
                let d = this.spec_to_diagnostic();
                &&& d.message == "'"@ + var.name@ + "' is located at '"@ + address@ + "', which '"@ + other.name@ + "' also claims"@
                &&& d.span == var.span
                &&& d.severity == Some(Severity::Error)
                &&& d.related == Seq::<RelatedView>::empty().push(RelatedView { message: "'"@ + other.name@ + "' is located here"@, file: other.file, span: other.span })
                &&& d.notes == Seq::<Seq<char>>::empty().push("an address is one channel, and each declaration is given storage of its own, so the two would never see each other's value; name the one variable from wherever it is needed"@)
                &&& d.tags == Seq::<Tag>::empty()
                &&& d.source == None::<Seq<char>>
                &&& d.fixes == Seq::<FixView>::empty()
            },
            ConfigError::LocationWidthMismatch { var, address, address_bits, declared_bits, declared } => {
                let d = this.spec_to_diagnostic();
                let bits = bit_count(address_bits as nat);
                let head = "'"@ + address@ + "' is "@ + bits + ", but '"@ + var.name@ + "' is declared '"@ + declared@;
                let message = match declared_bits { Some(n) => head + "', which is "@ + decimal(n as nat), None => head + "', which is not an elementary type of any width"@, };
                &&& d.message == message
                &&& d.span == var.span
                &&& d.severity == Some(Severity::Error)
                &&& d.related == Seq::<RelatedView>::empty()
                &&& d.notes == Seq::<Seq<char>>::empty().push("a located variable holds one value as wide as its address; declare it as an elementary type of "@ + bits + ", such as "@ + width_examples(address_bits as nat))
                &&& d.tags == Seq::<Tag>::empty()
                &&& d.source == None::<Seq<char>>
                &&& d.fixes == Seq::<FixView>::empty()
            },
            ConfigError::PartOfWiderAddress { site, address, owner, usage } => {
                let d = this.spec_to_diagnostic();
                &&& d.message == usage.spec_message(address@, owner@)
                &&& d.span == site
                &&& d.severity == Some(Severity::Error)
                &&& d.related == Seq::<RelatedView>::empty()
                &&& d.notes == Seq::<Seq<char>>::empty().push(usage.spec_note(address@, owner@))
                &&& d.tags == Seq::<Tag>::empty()
                &&& d.source == None::<Seq<char>>
                &&& d.fixes == Seq::<FixView>::empty()
            },
            ConfigError::ConfigLocationRefused { expr, var, address, why } => {
                let d = this.spec_to_diagnostic();
                &&& d.message == why.spec_message(var@, address@)
                &&& d.span == expr
                &&& d.severity == Some(Severity::Error)
                &&& d.related == Seq::<RelatedView>::empty()
                &&& d.notes == Seq::<Seq<char>>::empty().push(why.spec_note())
                &&& d.tags == Seq::<Tag>::empty()
                &&& d.source == None::<Seq<char>>
                &&& d.fixes == Seq::<FixView>::empty()
            },
            ConfigError::ConfigEntryRefused { expr, why } => {
                let d = this.spec_to_diagnostic();
                match why {
                    ConfigEntryRefusal::PathStep => {
                        &&& d.message == "a VAR_CONFIG path names instances and variables, not an element or what a reference points at"@
                        &&& d.span == expr
                        &&& d.severity == Some(Severity::Error)
                        &&& d.related == Seq::<RelatedView>::empty()
                        &&& d.notes == Seq::<Seq<char>>::empty().push("name the variable itself; an element of an array or a referenced value cannot be configured"@)
                        &&& d.tags == Seq::<Tag>::empty()
                        &&& d.source == None::<Seq<char>>
                        &&& d.fixes == Seq::<FixView>::empty()
                    },
                    ConfigEntryRefusal::TypeMismatch { var, written, declared } => {
                        &&& d.message == "the entry says '"@ + written@ + "', but '"@ + var@ + "' is declared '"@ + declared@ + "'"@
                        &&& d.span == expr
                        &&& d.severity == Some(Severity::Error)
                        &&& d.related == Seq::<RelatedView>::empty()
                        &&& d.notes == Seq::<Seq<char>>::empty().push("the entry repeats the variable's type; write the declared one"@)
                        &&& d.tags == Seq::<Tag>::empty()
                        &&& d.source == None::<Seq<char>>
                        &&& d.fixes == Seq::<FixView>::empty()
                    },
                }
            },
            ConfigError::PartlyLocatedUnlocated(PartlyUnlocated::Missing { instance, path, address }) => {
                let d = this.spec_to_diagnostic();
                &&& d.message == "'"@ + path@ + "' is declared AT "@ + address@ + ", and no VAR_CONFIG entry locates it"@
                &&& d.span == instance.span
                &&& d.severity == Some(Severity::Error)
                &&& d.related == Seq::<RelatedView>::empty()
                &&& d.notes == Seq::<Seq<char>>::empty().push("each instance is given its address in the CONFIGURATION's VAR_CONFIG, as in 'Res.P1.fb.x AT %IX0.0 : BOOL;'"@)
                &&& d.tags == Seq::<Tag>::empty()
                &&& d.source == None::<Seq<char>>
                &&& d.fixes == Seq::<FixView>::empty()
            },
            ConfigError::PartlyLocatedUnlocated(PartlyUnlocated::Unreachable { var, member, address, place }) => {
                let d = this.spec_to_diagnostic();
                let whose = "'"@ + var.name@ + "' holds '"@ + member@ + "', declared AT "@ + address@;
                let message = match place { UnreachablePlace::Array => whose + ", in the elements of an array, which VAR_CONFIG cannot name"@, UnreachablePlace::Global => whose + ", in a VAR_GLOBAL, which VAR_CONFIG cannot name"@, UnreachablePlace::PerCall => whose + ", in an instance made for each call, which VAR_CONFIG cannot name"@, };
                &&& d.message == message
                &&& d.span == var.span
                &&& d.severity == Some(Severity::Error)
                &&& d.related == Seq::<RelatedView>::empty()
                &&& d.notes == Seq::<Seq<char>>::empty().push("a VAR_CONFIG path names a PROGRAM instance and the instances it holds by name; hold this one there"@)
                &&& d.tags == Seq::<Tag>::empty()
                &&& d.source == None::<Seq<char>>
                &&& d.fixes == Seq::<FixView>::empty()
            },
        },
{
    match this {
        ConfigError::MultipleConfigurations { config, others } => {
            lemma_declared_here_keeps_head(
                this.err("a workspace can only have one CONFIGURATION; this one declares "@ + decimal(others@.len() + 1), config.name_span),
                named_views(others@),
            );
        },
        _ => {},
    }
}

} // verus!
