//! The launcher descriptor, its text form and the path it is written to.
use vstd::prelude::*;

use crate::lines::{is_single_line, join_lines, lemma_split_join, split_lines};

verus! {

/// Where a generated entry goes.
#[derive(Clone, Copy, Debug, PartialEq, Eq, Structural)]
pub enum InstallMode {
    /// The user's own launcher directory, for immediate local use.
    Fast,
    /// The user's downloads folder, for handing the entry on.
    Export,
}

/// A required field was empty.
#[derive(Clone, Copy, Debug, PartialEq, Eq, Structural)]
pub enum ValidationError {
    EmptyName,
    EmptyExecutable,
}

/// Why generating an entry failed.
#[derive(Debug)]
pub enum GenerateError {
    /// A required field was missing or empty; nothing was written.
    Validation(ValidationError),
    /// The home directory could not be determined; nothing was written.
    Environment,
    /// The file could not be opened or written.
    Io { path: String, cause: String },
}

/// The text `"true"` or `"false"`.
pub open spec fn bool_text(b: bool) -> Seq<char> {
    if b {
        "true"@
    } else {
        "false"@
    }
}

/// The lines of an entry, in their fixed order; the icon line, when there
/// is one, comes last.
pub open spec fn entry_lines(
    name: Seq<char>,
    exec: Seq<char>,
    icon: Option<Seq<char>>,
    terminal: bool,
) -> Seq<Seq<char>> {
    let base = seq![
        "[Desktop Entry]"@,
        "Encoding=UTF-8"@,
        "Version=1.0"@,
        "Type=Application"@,
        "Terminal="@ + bool_text(terminal),
        "Exec="@ + exec,
        "Name="@ + name,
    ];
    match icon {
        Some(i) => base.push("Icon="@ + i),
        None => base,
    }
}

/// The text of an entry: its lines joined by newlines, with none after the
/// last.
pub open spec fn entry_text(
    name: Seq<char>,
    exec: Seq<char>,
    icon: Option<Seq<char>>,
    terminal: bool,
) -> Seq<char> {
    join_lines(entry_lines(name, exec, icon, terminal))
}

/// The file an entry named `name` is written to, under the home directory
/// `home`.
pub open spec fn target_path(home: Seq<char>, name: Seq<char>, mode: InstallMode) -> Seq<char> {
    match mode {
        InstallMode::Fast => home + "/.local/share/applications/"@ + name + ".desktop"@,
        InstallMode::Export => home + "/Downloads/"@ + name + ".desktop"@,
    }
}

/// The view of an optional string.
pub open spec fn opt_view(o: Option<String>) -> Option<Seq<char>> {
    match o {
        Some(s) => Some(s@),
        None => None,
    }
}

/// What generating an entry hands to the writer: the file to replace and the
/// whole text it is to hold.
#[derive(Debug)]
pub struct WriteRequest {
    pub path: String,
    pub content: String,
}

/// One launcher entry. Its name and command are never empty.
#[derive(Debug)]
pub struct DesktopFile {
    path: String,
    logo_path: Option<String>,
    bin: String,
    terminal: bool,
}

impl DesktopFile {
    #[verifier::type_invariant]
    spec fn inv(self) -> bool {
        self.path@.len() > 0 && self.bin@.len() > 0
    }

    /// The display name, also the file's base name.
    pub closed spec fn spec_name(self) -> Seq<char> {
        self.path@
    }

    /// The command to run.
    pub closed spec fn spec_exec(self) -> Seq<char> {
        self.bin@
    }

    /// The icon's path, if any.
    pub closed spec fn spec_icon(self) -> Option<Seq<char>> {
        opt_view(self.logo_path)
    }

    /// Whether the entry runs in a terminal.
    pub closed spec fn spec_terminal(self) -> bool {
        self.terminal
    }

    /// The entry's text.
    pub open spec fn spec_content(self) -> Seq<char> {
        entry_text(self.spec_name(), self.spec_exec(), self.spec_icon(), self.spec_terminal())
    }

    /// Builds an entry named `path` that runs `bin`, with an optional icon;
    /// an empty name or command is refused.
    pub fn new(path: String, logo: Option<String>, bin: String, terminal: bool) -> (r: Result<
        DesktopFile,
        ValidationError,
    >)
        ensures
            path@.len() == 0 <==> r == Err::<DesktopFile, ValidationError>(
                ValidationError::EmptyName,
            ),
            (path@.len() > 0 && bin@.len() == 0) <==> r == Err::<DesktopFile, ValidationError>(
                ValidationError::EmptyExecutable,
            ),
            r is Ok <==> path@.len() > 0 && bin@.len() > 0,
            r matches Ok(d) ==> d.spec_name() == path@ && d.spec_exec() == bin@ && d.spec_icon()
                == opt_view(logo) && d.spec_terminal() == terminal,
    {
        if path.as_str().is_empty() {
            return Err(ValidationError::EmptyName);
        }
        if bin.as_str().is_empty() {
            return Err(ValidationError::EmptyExecutable);
        }
        Ok(DesktopFile { path, logo_path: logo, bin, terminal })
    }

    /// The entry's text, line by line in the fixed order.
    pub fn content(&self) -> (r: String)
        ensures
            r@ == self.spec_content(),
    {
        let ghost name = self.spec_name();
        let ghost exec = self.spec_exec();
        let ghost terminal = self.spec_terminal();
        let ghost l0 = seq!["[Desktop Entry]"@];
        let mut text = String::from_str("[Desktop Entry]");
        assert(text@ == join_lines(l0));
        push_line(&mut text, "Encoding=UTF-8");
        let ghost l1 = l0.push("Encoding=UTF-8"@);
        assert(l1.drop_last() =~= l0);
        assert(text@ =~= join_lines(l1));
        push_line(&mut text, "Version=1.0");
        let ghost l2 = l1.push("Version=1.0"@);
        assert(l2.drop_last() =~= l1);
        assert(text@ =~= join_lines(l2));
        push_line(&mut text, "Type=Application");
        let ghost l3 = l2.push("Type=Application"@);
        assert(l3.drop_last() =~= l2);
        assert(text@ =~= join_lines(l3));
        push_line(&mut text, "Terminal=");
        let ghost before = text@;
        if self.terminal {
            text.append("true");
        } else {
            text.append("false");
        }
        assert(text@ == before + bool_text(terminal));
        let ghost l4 = l3.push("Terminal="@ + bool_text(terminal));
        assert(l4.drop_last() =~= l3);
        assert(join_lines(l4) == join_lines(l3) + seq!['\n'] + ("Terminal="@ + bool_text(terminal)));
        assert(text@ =~= join_lines(l4));
        push_line(&mut text, "Exec=");
        text.append(self.bin.as_str());
        let ghost l5 = l4.push("Exec="@ + exec);
        assert(l5.drop_last() =~= l4);
        assert(text@ =~= join_lines(l5));
        push_line(&mut text, "Name=");
        text.append(self.path.as_str());
        let ghost l6 = l5.push("Name="@ + name);
        assert(l6.drop_last() =~= l5);
        assert(text@ =~= join_lines(l6));
        assert(l6 =~= entry_lines(name, exec, None, terminal));
        match &self.logo_path {
            Some(icon) => {
                push_line(&mut text, "Icon=");
                text.append(icon.as_str());
                let ghost l7 = l6.push("Icon="@ + icon@);
                assert(l7.drop_last() =~= l6);
                assert(text@ =~= join_lines(l7));
                assert(l7 =~= entry_lines(name, exec, self.spec_icon(), terminal));
            },
            None => {},
        }
        text
    }

    /// The file the entry is written to under the home directory `home`.
    pub fn target_path(&self, home: &str, mode: InstallMode) -> (r: String)
        ensures
            r@ == target_path(home@, self.spec_name(), mode),
    {
        let mut p = String::from_str(home);
        match mode {
            InstallMode::Fast => p.append("/.local/share/applications/"),
            InstallMode::Export => p.append("/Downloads/"),
        }
        p.append(self.path.as_str());
        p.append(".desktop");
        p
    }

    /// What saving the entry writes: its path under `home` and its text.
    /// Without a home directory there is nowhere to write.
    pub fn save(&self, home: Option<String>, mode: InstallMode) -> (r: Result<
        WriteRequest,
        GenerateError,
    >)
        ensures
            home is None <==> r matches Err(GenerateError::Environment),
            r is Ok <==> home is Some,
            r matches Ok(w) ==> w.path@ == target_path(home->0@, self.spec_name(), mode)
                && w.content@ == self.spec_content(),
    {
        match home {
            None => Err(GenerateError::Environment),
            Some(h) => Ok(WriteRequest { path: self.target_path(h.as_str(), mode), content: self.content() }),
        }
    }
    /// The entry's name.
    pub fn name(&self) -> (r: &str)
        ensures
            r@ == self.spec_name(),
            r@.len() > 0,
    {
        proof {
            use_type_invariant(self);
        }
        self.path.as_str()
    }

    /// The command the entry runs.
    pub fn exec(&self) -> (r: &str)
        ensures
            r@ == self.spec_exec(),
            r@.len() > 0,
    {
        proof {
            use_type_invariant(self);
        }
        self.bin.as_str()
    }

    /// The icon's path, if the entry has one.
    pub fn icon(&self) -> (r: Option<&str>)
        ensures
            r matches Some(i) ==> self.spec_icon() == Some(i@),
            r is None ==> self.spec_icon() is None,
    {
        match &self.logo_path {
            Some(i) => Some(i.as_str()),
            None => None,
        }
    }

    /// Whether the entry runs in a terminal.
    pub fn terminal(&self) -> (r: bool)
        ensures
            r == self.spec_terminal(),
    {
        self.terminal
    }
}

/// The outcome of generating an entry: the path and text to write, or the
/// error. Fields are checked before the home directory.
pub open spec fn generation(
    name: Seq<char>,
    exec: Seq<char>,
    icon: Option<Seq<char>>,
    terminal: bool,
    home: Option<Seq<char>>,
    mode: InstallMode,
) -> Result<(Seq<char>, Seq<char>), GenerateError> {
    if name.len() == 0 {
        Err(GenerateError::Validation(ValidationError::EmptyName))
    } else if exec.len() == 0 {
        Err(GenerateError::Validation(ValidationError::EmptyExecutable))
    } else {
        match home {
            None => Err(GenerateError::Environment),
            Some(h) => Ok((target_path(h, name, mode), entry_text(name, exec, icon, terminal))),
        }
    }
}

/// A generation result as a path and a text, or its error.
pub open spec fn request_view(r: Result<WriteRequest, GenerateError>) -> Result<
    (Seq<char>, Seq<char>),
    GenerateError,
> {
    match r {
        Ok(w) => Ok((w.path@, w.content@)),
        Err(e) => Err(e),
    }
}

/// Validates the fields, builds the entry and prepares its file under the
/// home directory `home` (absent when it could not be determined).
pub fn generate(
    name: String,
    exec: String,
    icon: Option<String>,
    terminal: bool,
    home: Option<String>,
    mode: InstallMode,
) -> (r: Result<WriteRequest, GenerateError>)
    ensures
        request_view(r) == generation(name@, exec@, opt_view(icon), terminal, opt_view(home), mode),
{
    let ghost (n, e, i) = (name@, exec@, opt_view(icon));
    match DesktopFile::new(name, icon, exec, terminal) {
        Err(v) => Err(GenerateError::Validation(v)),
        Ok(d) => {
            let r = d.save(home, mode);
            assert(d.spec_content() == entry_text(n, e, i, terminal));
            r
        },
    }
}

/// `line` is an icon line: it starts with `Icon=`.
pub open spec fn is_icon_line(line: Seq<char>) -> bool {
    "Icon="@.is_prefix_of(line)
}

/// None of the given fields holds a newline.
pub open spec fn fields_single_line(name: Seq<char>, exec: Seq<char>, icon: Option<Seq<char>>) -> bool {
    &&& is_single_line(name)
    &&& is_single_line(exec)
    &&& (icon matches Some(i) ==> is_single_line(i))
}

proof fn lemma_prefix_single_line(a: Seq<char>, b: Seq<char>)
    requires
        is_single_line(a),
        is_single_line(b),
    ensures
        is_single_line(a + b),
{
    assert forall|i: int| 0 <= i < (a + b).len() implies (a + b)[i] != '\n' by {
        if i < a.len() {
            assert((a + b)[i] == a[i]);
        } else {
            assert((a + b)[i] == b[i - a.len()]);
        }
    }
}

proof fn lemma_entry_lines_single(name: Seq<char>, exec: Seq<char>, icon: Option<Seq<char>>, terminal: bool)
    requires
        fields_single_line(name, exec, icon),
    ensures
        forall|k: int|
            0 <= k < entry_lines(name, exec, icon, terminal).len() ==> is_single_line(
                #[trigger] entry_lines(name, exec, icon, terminal)[k],
            ),
        forall|k: int|
            0 <= k < 7 ==> entry_lines(name, exec, icon, terminal)[k].len() > 0
                && #[trigger] entry_lines(name, exec, icon, terminal)[k][0] != 'I',
{
    reveal_strlit("[Desktop Entry]");
    reveal_strlit("Encoding=UTF-8");
    reveal_strlit("Version=1.0");
    reveal_strlit("Type=Application");
    reveal_strlit("Terminal=");
    reveal_strlit("true");
    reveal_strlit("false");
    reveal_strlit("Exec=");
    reveal_strlit("Name=");
    reveal_strlit("Icon=");
    lemma_prefix_single_line("Terminal="@, bool_text(terminal));
    lemma_prefix_single_line("Exec="@, exec);
    lemma_prefix_single_line("Name="@, name);
    if let Some(i) = icon {
        lemma_prefix_single_line("Icon="@, i);
    }
    let ls = entry_lines(name, exec, icon, terminal);
    assert(ls[4] == "Terminal="@ + bool_text(terminal));
    assert(ls[5] == "Exec="@ + exec);
    assert(ls[6] == "Name="@ + name);
    assert(ls[4][0] == 'T');
    assert(ls[5][0] == 'E');
    assert(ls[6][0] == 'N');
}

/// With non-empty name and command and a known home directory, generation
/// succeeds whatever the icon, terminal flag and install mode. Its text is
/// the fixed template, and when no field holds a newline its lines are the
/// template's lines in their fixed order.
pub proof fn lemma_valid_fields_generate(
    name: Seq<char>,
    exec: Seq<char>,
    icon: Option<Seq<char>>,
    terminal: bool,
    home: Seq<char>,
    mode: InstallMode,
)
    requires
        name.len() > 0,
        exec.len() > 0,
    ensures
        generation(name, exec, icon, terminal, Some(home), mode) == Ok::<
            (Seq<char>, Seq<char>),
            GenerateError,
        >((target_path(home, name, mode), join_lines(entry_lines(name, exec, icon, terminal)))),
        fields_single_line(name, exec, icon) ==> split_lines(entry_text(name, exec, icon, terminal))
            == entry_lines(name, exec, icon, terminal),
{
    if fields_single_line(name, exec, icon) {
        lemma_entry_lines_single(name, exec, icon, terminal);
        lemma_split_join(entry_lines(name, exec, icon, terminal));
    }
}

/// Generating twice from the same inputs gives the same path and the same
/// text, so the second file written is byte for byte the first.
pub proof fn lemma_generation_repeatable(
    r1: Result<WriteRequest, GenerateError>,
    r2: Result<WriteRequest, GenerateError>,
    name: Seq<char>,
    exec: Seq<char>,
    icon: Option<Seq<char>>,
    terminal: bool,
    home: Option<Seq<char>>,
    mode: InstallMode,
)
    requires
        request_view(r1) == generation(name, exec, icon, terminal, home, mode),
        request_view(r2) == generation(name, exec, icon, terminal, home, mode),
    ensures
        request_view(r1) == request_view(r2),
        r1 matches Ok(w1) ==> (r2 matches Ok(w2) && w1.path@ == w2.path@ && w1.content@
            == w2.content@),
{
}

/// Without an icon no line of the text is an icon line; with one, exactly
/// the last line is, and it holds the icon's path verbatim. This holds when
/// no field holds a newline (a newline in a field starts a line of its own).
pub proof fn lemma_icon_line(name: Seq<char>, exec: Seq<char>, icon: Option<Seq<char>>, terminal: bool)
    requires
        fields_single_line(name, exec, icon),
    ensures
        ({
            let ls = split_lines(entry_text(name, exec, icon, terminal));
            &&& icon is None ==> forall|k: int| 0 <= k < ls.len() ==> !is_icon_line(#[trigger] ls[k])
            &&& icon matches Some(i) ==> {
                &&& ls.last() == "Icon="@ + i
                &&& forall|k: int| 0 <= k < ls.len() - 1 ==> !is_icon_line(#[trigger] ls[k])
            }
        }),
{
    let ls = entry_lines(name, exec, icon, terminal);
    lemma_entry_lines_single(name, exec, icon, terminal);
    lemma_split_join(ls);
    reveal_strlit("Icon=");
    assert forall|k: int| 0 <= k < 7 implies !is_icon_line(#[trigger] ls[k]) by {
        assert(ls[k][0] != 'I');
        if is_icon_line(ls[k]) {
            assert(ls[k][0] == "Icon="@[0]);
        }
    }
}

/// The terminal line reads `Terminal=true` or `Terminal=false`, after the
/// flag.
pub proof fn lemma_terminal_line(name: Seq<char>, exec: Seq<char>, icon: Option<Seq<char>>, terminal: bool)
    requires
        fields_single_line(name, exec, icon),
    ensures
        split_lines(entry_text(name, exec, icon, terminal))[4] == (if terminal {
            "Terminal=true"@
        } else {
            "Terminal=false"@
        }),
{
    lemma_entry_lines_single(name, exec, icon, terminal);
    lemma_split_join(entry_lines(name, exec, icon, terminal));
    reveal_strlit("Terminal=");
    reveal_strlit("true");
    reveal_strlit("false");
    reveal_strlit("Terminal=true");
    reveal_strlit("Terminal=false");
    assert("Terminal="@ + "true"@ =~= "Terminal=true"@);
    assert("Terminal="@ + "false"@ =~= "Terminal=false"@);
}

/// An empty name or command is a validation error, whatever the other
/// inputs: no path and no text are produced, so nothing is written.
pub proof fn lemma_empty_field_rejected(
    name: Seq<char>,
    exec: Seq<char>,
    icon: Option<Seq<char>>,
    terminal: bool,
    home: Option<Seq<char>>,
    mode: InstallMode,
)
    requires
        name.len() == 0 || exec.len() == 0,
    ensures
        generation(name, exec, icon, terminal, home, mode) matches Err(GenerateError::Validation(_)),
{
}

/// Appends a newline and `line` to `text`.
fn push_line(text: &mut String, line: &str)
    ensures
        final(text)@ == old(text)@ + seq!['\n'] + line@,
{
    proof {
        reveal_strlit("\n");
    }
    text.append("\n");
    text.append(line);
}

} // verus!
