//! Command lines to run, and the paths they speak of.
use std::path::PathBuf;
use vstd::prelude::*;

verus! {

/// `std::path::PathBuf`: a path is carried as it was given, and never looked into.
#[verifier::external_type_specification]
#[verifier::external_body]
pub struct ExPathBuf(PathBuf);

/// A directory.
pub enum Base<'a> {
    /// The one at this path.
    Path(&'a PathBuf),
    /// The one of this name, seen from the current directory.
    Name(String),
}

/// What a directory is.
pub enum BaseView {
    Path(PathBuf),
    Name(Seq<char>),
}

impl<'a> View for Base<'a> {
    type V = BaseView;

    open spec fn view(&self) -> BaseView {
        match *self {
            Base::Path(path) => BaseView::Path(*path),
            Base::Name(name) => BaseView::Name(name@),
        }
    }
}

impl<'a> Clone for Base<'a> {
    fn clone(&self) -> (base: Base<'a>)
        ensures
            base@ == self@,
    {
        match self {
            Base::Path(path) => Base::Path(path),
            Base::Name(name) => Base::Name(name.as_str().to_string()),
        }
    }
}

/// A file: the name, joined to the directory.
pub struct Place<'a> {
    /// The directory.
    pub base: Base<'a>,
    /// The name, seen from the directory.
    pub file: String,
}

/// What a file is.
pub struct PlaceView {
    pub base: BaseView,
    pub file: Seq<char>,
}

impl<'a> View for Place<'a> {
    type V = PlaceView;

    open spec fn view(&self) -> PlaceView {
        PlaceView { base: self.base@, file: self.file@ }
    }
}

impl<'a> Clone for Place<'a> {
    fn clone(&self) -> (place: Place<'a>)
        ensures
            place@ == self@,
    {
        Place { base: self.base.clone(), file: self.file.as_str().to_string() }
    }
}

/// A file, however it was named.
pub enum File<'a> {
    /// The one at this path.
    Path(&'a PathBuf),
    /// The one at this place.
    Place(Place<'a>),
}

/// What a file is, however it was named.
pub enum FileView {
    Path(PathBuf),
    Place(PlaceView),
}

impl<'a> View for File<'a> {
    type V = FileView;

    open spec fn view(&self) -> FileView {
        match *self {
            File::Path(path) => FileView::Path(*path),
            File::Place(place) => FileView::Place(place@),
        }
    }
}

impl<'a> Clone for File<'a> {
    fn clone(&self) -> (file: File<'a>)
        ensures
            file@ == self@,
    {
        match self {
            File::Path(path) => File::Path(path),
            File::Place(place) => File::Place(place.clone()),
        }
    }
}

/// One argument of a command.
pub enum Arg<'a> {
    /// This text.
    Text(String),
    /// The path of this file.
    File(File<'a>),
}

/// What an argument is.
pub enum ArgView {
    Text(Seq<char>),
    File(FileView),
}

impl<'a> View for Arg<'a> {
    type V = ArgView;

    open spec fn view(&self) -> ArgView {
        match *self {
            Arg::Text(text) => ArgView::Text(text@),
            Arg::File(file) => ArgView::File(file@),
        }
    }
}

/// A command to run.
pub struct CommandLine<'a> {
    /// The program.
    pub program: String,
    /// Its arguments, in order.
    pub args: Vec<Arg<'a>>,
    /// The variables to set in its environment, by name and value.
    pub env: Vec<(String, String)>,
    /// The directory to run it in, where it is not the current one.
    pub dir: Option<&'a PathBuf>,
}

/// What a command is.
#[verifier::ext_equal]
pub struct CommandView {
    pub program: Seq<char>,
    pub args: Seq<ArgView>,
    pub env: Seq<(Seq<char>, Seq<char>)>,
    pub dir: Option<PathBuf>,
}

impl<'a> View for CommandLine<'a> {
    type V = CommandView;

    open spec fn view(&self) -> CommandView {
        CommandView {
            program: self.program@,
            args: self.args@.map_values(|arg: Arg<'a>| arg@),
            env: self.env@.map_values(|pair: (String, String)| (pair.0@, pair.1@)),
            dir: match self.dir {
                Some(path) => Some(*path),
                None => None,
            },
        }
    }
}

impl CommandView {
    /// The program alone.
    pub open spec fn of(program: Seq<char>) -> CommandView {
        CommandView { program, args: seq![], env: seq![], dir: None }
    }

    /// With one more argument, a text.
    pub open spec fn arg(self, text: Seq<char>) -> CommandView {
        CommandView { args: self.args.push(ArgView::Text(text)), ..self }
    }

    /// With more arguments, all of them texts.
    pub open spec fn args(self, more: Seq<Seq<char>>) -> CommandView {
        CommandView {
            args: self.args + more.map_values(|text: Seq<char>| ArgView::Text(text)),
            ..self
        }
    }

    /// With one more argument, the path of a file.
    pub open spec fn file(self, file: FileView) -> CommandView {
        CommandView { args: self.args.push(ArgView::File(file)), ..self }
    }

    /// With one more variable.
    pub open spec fn env(self, name: Seq<char>, value: Seq<char>) -> CommandView {
        CommandView { env: self.env.push((name, value)), ..self }
    }

    /// Run in this directory.
    pub open spec fn current_dir(self, dir: PathBuf) -> CommandView {
        CommandView { dir: Some(dir), ..self }
    }
}

impl<'a> CommandLine<'a> {
    /// The program alone.
    pub fn new(program: &str) -> (command: CommandLine<'a>)
        ensures
            command@ == CommandView::of(program@),
    {
        let command = CommandLine {
            program: program.to_string(),
            args: Vec::new(),
            env: Vec::new(),
            dir: None,
        };
        assert(command@ =~= CommandView::of(program@));
        command
    }

    /// Adds an argument, a text.
    pub fn arg(&mut self, text: &str)
        ensures
            final(self)@ == old(self)@.arg(text@),
    {
        self.args.push(Arg::Text(text.to_string()));
        assert(self@ =~= old(self)@.arg(text@));
    }

    /// Adds arguments, all of them texts.
    pub fn args(&mut self, more: &Vec<String>)
        ensures
            final(self)@ == old(self)@.args(crate::text::texts(more@)),
    {
        let ghost before = self@;
        let ghost words = crate::text::texts(more@);
        assert(self@ =~= before.args(words.take(0)));
        let mut i: usize = 0;
        while i < more.len()
            invariant
                i <= more.len(),
                words == crate::text::texts(more@),
                self@ == before.args(words.take(i as int)),
            decreases more.len() - i,
        {
            self.arg(more[i].as_str());
            assert(self@ =~= before.args(words.take(i + 1)));
            i = i + 1;
        }
        assert(words.take(i as int) =~= words);
    }

    /// Adds an argument, the path of a file.
    pub fn file(&mut self, file: File<'a>)
        ensures
            final(self)@ == old(self)@.file(file@),
    {
        self.args.push(Arg::File(file));
        assert(self@ =~= old(self)@.file(file@));
    }

    /// Sets a variable.
    pub fn env(&mut self, name: &str, value: &str)
        ensures
            final(self)@ == old(self)@.env(name@, value@),
    {
        self.env.push((name.to_string(), value.to_string()));
        assert(self@ =~= old(self)@.env(name@, value@));
    }

    /// Sets the directory to run in.
    pub fn current_dir(&mut self, dir: &'a PathBuf)
        ensures
            final(self)@ == old(self)@.current_dir(*dir),
    {
        self.dir = Some(dir);
        assert(self@ =~= old(self)@.current_dir(*dir));
    }
}

/// A command is its parts, one for one: each argument is the text or the file that was
/// given, and each variable its name and its value.
pub proof fn law_command_is_its_parts<'a>(command: CommandLine<'a>)
    ensures
        command@.program == command.program@,
        command@.args.len() == command.args@.len(),
        forall|i: int|
            0 <= i < command.args@.len() ==> match #[trigger] command.args@[i] {
                Arg::Text(text) => command@.args[i] == ArgView::Text(text@),
                Arg::File(File::Path(path)) => command@.args[i] == ArgView::File(
                    FileView::Path(*path),
                ),
                Arg::File(File::Place(place)) => command@.args[i] == ArgView::File(
                    FileView::Place(
                        PlaceView {
                            base: match place.base {
                                Base::Path(path) => BaseView::Path(*path),
                                Base::Name(name) => BaseView::Name(name@),
                            },
                            file: place.file@,
                        },
                    ),
                ),
            },
        command@.env.len() == command.env@.len(),
        forall|i: int|
            0 <= i < command.env@.len() ==> command@.env[i].0 == (#[trigger] command.env@[i]).0@
                && command@.env[i].1 == command.env@[i].1@,
        command@.dir is Some <==> command.dir is Some,
        command.dir matches Some(dir) ==> command@.dir == Some(*dir),
{
}

/// What is added to a command comes after what it had, and changes nothing else.
pub proof fn law_command_only_grows(
    command: CommandView,
    text: Seq<char>,
    words: Seq<Seq<char>>,
    file: FileView,
    value: Seq<char>,
    dir: PathBuf,
)
    ensures
        command.arg(text) == (CommandView {
            args: command.args + seq![ArgView::Text(text)],
            ..command
        }),
        command.file(file) == (CommandView {
            args: command.args + seq![ArgView::File(file)],
            ..command
        }),
        command.env(text, value) == (CommandView {
            env: command.env + seq![(text, value)],
            ..command
        }),
        command.current_dir(dir) == (CommandView { dir: Some(dir), ..command }),
        ({
            let longer = command.args(words);
            &&& longer == (CommandView { args: longer.args, ..command })
            &&& longer.args.len() == command.args.len() + words.len()
            &&& command.args.is_prefix_of(longer.args)
            &&& forall|i: int|
                0 <= i < words.len() ==> longer.args[command.args.len() + i] == ArgView::Text(
                    #[trigger] words[i],
                )
        }),
{
    assert(command.args.push(ArgView::Text(text)) =~= command.args + seq![ArgView::Text(text)]);
    assert(command.args.push(ArgView::File(file)) =~= command.args + seq![ArgView::File(file)]);
    assert(command.env.push((text, value)) =~= command.env + seq![(text, value)]);
    let longer = command.args(words);
    assert(command.args =~= longer.args.subrange(0, command.args.len() as int));
}

} // verus!
