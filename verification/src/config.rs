//! Editor commands and colours, and how a command template becomes an
//! invocation.

use vstd::prelude::*;
use vstd::string::StringExecFns;

verus! {

/// An RGB colour.
#[derive(Clone, Copy, Debug, PartialEq, Eq, Structural)]
pub struct Rgb {
    pub r: u8,
    pub g: u8,
    pub b: u8,
}

/// User preferences: the two editor command templates, whether to wait for
/// the editor, and the colours of directory and file rows.
#[derive(Debug)]
pub struct Config {
    pub text_editor_command: Vec<String>,
    pub binary_editor_command: Vec<String>,
    pub wait_for_editor_exit: bool,
    pub dir_color: Option<Rgb>,
    pub file_color: Option<Rgb>,
}

/// A command ready to be launched: the executable, its arguments, and
/// whether the caller is to wait for it to exit.
#[derive(Debug)]
pub struct Invocation {
    pub executable: String,
    pub args: Vec<String>,
    pub wait: bool,
}

/// The token of a command template that stands for the target file.
pub open spec fn placeholder() -> Seq<char> {
    seq!['$', 'f']
}

/// The colour of directory rows when none is configured.
pub open spec fn default_dir_color() -> Rgb {
    Rgb { r: 59, g: 120, b: 255 }
}

/// The colour of file rows when none is configured.
pub open spec fn default_file_color() -> Rgb {
    Rgb { r: 46, g: 199, b: 219 }
}

/// A template with every placeholder token replaced by `target`.
pub open spec fn substituted(template: Seq<Seq<char>>, target: Seq<char>) -> Seq<Seq<char>> {
    Seq::new(
        template.len(),
        |i: int|
            if template[i] == placeholder() {
                target
            } else {
                template[i]
            },
    )
}

/// A template without a placeholder token is launched as it stands: the
/// target is put nowhere.
pub proof fn lemma_substituted_without_placeholder(template: Seq<Seq<char>>, target: Seq<char>)
    requires
        forall|i: int| 0 <= i < template.len() ==> #[trigger] template[i] != placeholder(),
    ensures
        substituted(template, target) == template,
{
    assert(substituted(template, target) =~= template);
}

fn placeholder_token() -> (r: String)
    ensures
        r@ == placeholder(),
{
    proof {
        reveal_strlit("$f");
    }
    let r = String::from_str("$f");
    assert(r@ =~= placeholder());
    r
}

/// Replaces each placeholder token of `template` by `target`; other tokens
/// pass through.
pub fn substitute(template: &Vec<String>, target: &str) -> (r: Vec<String>)
    ensures
        r.deep_view() == substituted(template.deep_view(), target@),
{
    let token = placeholder_token();
    let mut parts: Vec<String> = Vec::new();
    let mut i: usize = 0;
    while i < template.len()
        invariant
            i <= template.len(),
            token@ == placeholder(),
            parts.len() == i,
            forall|j: int|
                0 <= j < i ==> #[trigger] parts[j]@ == substituted(
                    template.deep_view(),
                    target@,
                )[j],
        decreases template.len() - i,
    {
        let part = &template[i];
        assert(template.deep_view()[i as int] == part@);
        if *part == token {
            parts.push(String::from_str(target));
        } else {
            parts.push(part.clone());
        }
        i += 1;
    }
    assert(parts.deep_view() =~= substituted(template.deep_view(), target@));
    parts
}

/// Whether two token sequences hold the same strings in the same order.
fn same_tokens(a: &Vec<String>, b: &Vec<String>) -> (r: bool)
    ensures
        r == (a.deep_view() == b.deep_view()),
{
    if a.len() != b.len() {
        assert(a.deep_view().len() != b.deep_view().len());
        return false;
    }
    let mut i: usize = 0;
    while i < a.len()
        invariant
            i <= a.len(),
            a.len() == b.len(),
            forall|j: int| 0 <= j < i ==> #[trigger] a[j]@ == b[j]@,
        decreases a.len() - i,
    {
        if a[i] != b[i] {
            assert(a.deep_view()[i as int] == a[i as int]@);
            assert(b.deep_view()[i as int] == b[i as int]@);
            return false;
        }
        i += 1;
    }
    assert(a.deep_view() =~= b.deep_view());
    true
}

impl Config {
    /// The template that opens a file: the text editor's for text, the
    /// binary editor's otherwise.
    pub open spec fn template_for(&self, is_text: bool) -> Seq<Seq<char>> {
        if is_text {
            self.text_editor_command.deep_view()
        } else {
            self.binary_editor_command.deep_view()
        }
    }

    /// Whether the choice of editor depends on the file's content.
    pub open spec fn editors_differ(&self) -> bool {
        self.text_editor_command.deep_view() != self.binary_editor_command.deep_view()
    }

    /// The colour of directory rows.
    pub open spec fn dir_rgb_spec(&self) -> Rgb {
        match self.dir_color {
            Some(c) => c,
            None => default_dir_color(),
        }
    }

    /// The colour of file rows.
    pub open spec fn file_rgb_spec(&self) -> Rgb {
        match self.file_color {
            Some(c) => c,
            None => default_file_color(),
        }
    }

    /// The built-in preferences: `nano $f` for text, `hexedit $f` for
    /// binary files, waiting for the editor, and the default colours.
    pub fn default_config() -> (r: Config)
        ensures
            r.text_editor_command.deep_view() == seq!["nano"@, placeholder()],
            r.binary_editor_command.deep_view() == seq!["hexedit"@, placeholder()],
            r.wait_for_editor_exit,
            r.dir_color == Some(default_dir_color()),
            r.file_color == Some(default_file_color()),
    {
        let mut text: Vec<String> = Vec::new();
        text.push(String::from_str("nano"));
        text.push(placeholder_token());
        let mut binary: Vec<String> = Vec::new();
        binary.push(String::from_str("hexedit"));
        binary.push(placeholder_token());
        assert(text.deep_view() =~= seq!["nano"@, placeholder()]);
        assert(binary.deep_view() =~= seq!["hexedit"@, placeholder()]);
        Config {
            text_editor_command: text,
            binary_editor_command: binary,
            wait_for_editor_exit: true,
            dir_color: Some(Rgb { r: 59, g: 120, b: 255 }),
            file_color: Some(Rgb { r: 46, g: 199, b: 219 }),
        }
    }

    /// Whether a file's content has to be probed before the editor can be
    /// chosen: not when both templates are the same.
    pub fn needs_probe(&self) -> (r: bool)
        ensures
            r == self.editors_differ(),
    {
        !same_tokens(&self.text_editor_command, &self.binary_editor_command)
    }

    /// Whether a file is opened with the text editor, given what a probe
    /// of its content said, if there was one. Where both templates are
    /// the same no probe is needed, and the file opens as text; otherwise
    /// it opens as text only if a probe found it to be text.
    pub fn opens_as_text(&self, probed: Option<bool>) -> (r: bool)
        ensures
            r == (!self.editors_differ() || probed == Some(true)),
    {
        match probed {
            Some(true) => true,
            _ => !self.needs_probe(),
        }
    }

    /// The colour of directory rows: the configured one, or the default.
    pub fn dir_rgb(&self) -> (r: Rgb)
        ensures
            r == self.dir_rgb_spec(),
    {
        match self.dir_color {
            Some(c) => c,
            None => Rgb { r: 59, g: 120, b: 255 },
        }
    }

    /// The colour of file rows: the configured one, or the default.
    pub fn file_rgb(&self) -> (r: Rgb)
        ensures
            r == self.file_rgb_spec(),
    {
        match self.file_color {
            Some(c) => c,
            None => Rgb { r: 46, g: 199, b: 219 },
        }
    }

    /// The command that opens `target`, a text file or not: the chosen
    /// template with the placeholder replaced by `target`, its first token
    /// the executable and the others the arguments. An empty template
    /// gives nothing to launch.
    pub fn editor_invocation(&self, target: &str, is_text: bool) -> (r: Option<Invocation>)
        ensures
            self.template_for(is_text).len() == 0 <==> r is None,
            r matches Some(inv) ==> {
                let parts = substituted(self.template_for(is_text), target@);
                &&& inv.executable@ == parts[0]
                &&& inv.args.deep_view() == parts.skip(1)
                &&& inv.wait == self.wait_for_editor_exit
            },
    {
        let template = if is_text {
            &self.text_editor_command
        } else {
            &self.binary_editor_command
        };
        let mut parts = substitute(template, target);
        if parts.len() == 0 {
            return None;
        }
        let ghost all = parts@;
        let executable = parts.remove(0);
        assert(parts@ =~= all.skip(1));
        assert(parts.deep_view() =~= substituted(self.template_for(is_text), target@).skip(1))
            by {
            assert forall|j: int| 0 <= j < parts.len() implies #[trigger] parts.deep_view()[j]
                == all[j + 1]@ by {}
        }
        Some(Invocation { executable, args: parts, wait: self.wait_for_editor_exit })
    }
}

} // verus!
