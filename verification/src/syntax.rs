use vstd::prelude::*;

verus! {

/// The grammar variant used to parse one file: plain EcmaScript or
/// TypeScript, each carrying its own JSX/TSX acceptance toggle.
#[derive(Clone, Copy, PartialEq, Eq, Structural, Debug)]
pub enum SyntaxDialect {
    EcmaScript { jsx: bool },
    TypeScript { tsx: bool },
}

impl SyntaxDialect {
    /// Whether this dialect accepts TypeScript syntax.
    pub open spec fn is_typescript(self) -> bool {
        match self {
            SyntaxDialect::TypeScript { .. } => true,
            SyntaxDialect::EcmaScript { .. } => false,
        }
    }

    /// Whether this dialect accepts JSX (resp. TSX) element syntax.
    pub open spec fn jsx_enabled(self) -> bool {
        match self {
            SyntaxDialect::TypeScript { tsx } => tsx,
            SyntaxDialect::EcmaScript { jsx } => jsx,
        }
    }

    pub fn typescript(&self) -> (r: bool)
        ensures
            r == self.is_typescript(),
    {
        matches!(self, SyntaxDialect::TypeScript { .. })
    }

    pub fn jsx(&self) -> (r: bool)
        ensures
            r == self.jsx_enabled(),
    {
        match self {
            SyntaxDialect::TypeScript { tsx } => *tsx,
            SyntaxDialect::EcmaScript { jsx } => *jsx,
        }
    }
}

/// A file name selects the TypeScript dialect exactly when it ends in
/// `.ts` or `.tsx`.
pub open spec fn is_typescript_ext(name: Seq<char>) -> bool {
    ||| (name.len() >= 3 && name[name.len() - 3] == '.' && name[name.len() - 2] == 't'
        && name[name.len() - 1] == 's')
    ||| (name.len() >= 4 && name[name.len() - 4] == '.' && name[name.len() - 3] == 't'
        && name[name.len() - 2] == 's' && name[name.len() - 1] == 'x')
}

pub fn has_typescript_extension(name: &str) -> (r: bool)
    ensures
        r == is_typescript_ext(name@),
{
    let n = name.unicode_len();
    if n >= 3 && name.get_char(n - 3) == '.' && name.get_char(n - 2) == 't' && name.get_char(n - 1)
        == 's' {
        true
    } else if n >= 4 && name.get_char(n - 4) == '.' && name.get_char(n - 3) == 't' && name.get_char(
        n - 2,
    ) == 's' && name.get_char(n - 1) == 'x' {
        true
    } else {
        false
    }
}

/// Whether the TypeScript dialect is selected for a file: an explicit hint
/// wins; otherwise the file name's extension decides; an absent file name
/// degrades to EcmaScript.
pub open spec fn spec_selects_typescript(
    file_name: Option<String>,
    typescript_hint: Option<bool>,
) -> bool {
    match typescript_hint {
        Some(t) => t,
        None => match file_name {
            Some(n) => is_typescript_ext(n@),
            None => false,
        },
    }
}

/// The dialect chosen for a file. Both outcomes accept JSX/TSX syntax:
/// over-permissive parsing is preferred to a second misdetection path.
pub open spec fn spec_select_syntax(
    file_name: Option<String>,
    typescript_hint: Option<bool>,
) -> SyntaxDialect {
    if spec_selects_typescript(file_name, typescript_hint) {
        SyntaxDialect::TypeScript { tsx: true }
    } else {
        SyntaxDialect::EcmaScript { jsx: true }
    }
}

/// Chooses the parse dialect for one file from its metadata. There is no
/// error path: an unrecognized extension degrades to EcmaScript.
pub fn select_syntax(file_name: &Option<String>, typescript_hint: Option<bool>) -> (d:
    SyntaxDialect)
    ensures
        d == spec_select_syntax(*file_name, typescript_hint),
        d.jsx_enabled(),
{
    let is_ts: bool = match typescript_hint {
        Some(t) => t,
        None => match file_name {
            Some(n) => has_typescript_extension(n.as_str()),
            None => false,
        },
    };
    if is_ts {
        SyntaxDialect::TypeScript { tsx: true }
    } else {
        SyntaxDialect::EcmaScript { jsx: true }
    }
}

} // verus!
