//! The builder of an application: which environment it is made for, what has
//! been loaded and registered, and how far it has come.

use crate::task::{Phase, Protocol, Task};
use vstd::prelude::*;
use vstd::string::StrSliceExecFns;

verus! {

/// The foreign environment that embeds the framework.
#[derive(Clone, Copy, Debug, PartialEq, Eq, Structural)]
pub enum Lang {
    Go,
    Java,
    C,
}

/// The environment that a name stands for. The names are `Go`, `Java` and
/// `C`, written exactly so.
pub open spec fn lang_of(name: Seq<char>) -> Option<Lang> {
    if name == "Go"@ {
        Some(Lang::Go)
    } else if name == "Java"@ {
        Some(Lang::Java)
    } else if name == "C"@ {
        Some(Lang::C)
    } else {
        None
    }
}

/// Reads the name of an environment.
pub fn lang_from_name(name: &str) -> (lang: Option<Lang>)
    ensures
        lang == lang_of(name@),
{
    proof {
        reveal_strlit("Go");
        reveal_strlit("Java");
        reveal_strlit("C");
    }
    let len = name.unicode_len();
    if len == 2 && name.get_char(0) == 'G' && name.get_char(1) == 'o' {
        assert(name@ == "Go"@);
        Some(Lang::Go)
    } else if len == 4 && name.get_char(0) == 'J' && name.get_char(1) == 'a' && name.get_char(2)
        == 'v' && name.get_char(3) == 'a' {
        assert(name@ == "Java"@);
        Some(Lang::Java)
    } else if len == 1 && name.get_char(0) == 'C' {
        assert(name@ == "C"@);
        Some(Lang::C)
    } else {
        None
    }
}

/// How far a builder has come.
#[derive(Clone, Copy, Debug, PartialEq, Eq, Structural)]
pub enum Stage {
    Created,
    Loaded,
    Built,
}

impl Stage {
    /// The place of a stage in the order in which a builder goes through
    /// them.
    pub open spec fn rank(self) -> nat {
        match self {
            Stage::Created => 0,
            Stage::Loaded => 1,
            Stage::Built => 2,
        }
    }
}

/// The shape of a hook.
#[derive(Clone, Copy, Debug, PartialEq, Eq, Structural)]
pub enum HookKind {
    Transform,
    Validate,
    Perform,
}

/// A registration: the name under which the framework finds a foreign
/// callback, and the callback's shape.
pub struct Hook {
    name: String,
    kind: HookKind,
}

impl View for Hook {
    type V = (Seq<char>, HookKind);

    closed spec fn view(&self) -> (Seq<char>, HookKind) {
        (self.name@, self.kind)
    }
}

impl Hook {
    pub fn name(&self) -> (name: &str)
        ensures
            name@ == self@.0,
    {
        self.name.as_str()
    }

    pub fn kind(&self) -> (kind: HookKind)
        ensures
            kind == self@.1,
    {
        self.kind
    }
}

/// The record of what was asked of the framework's builder.
pub struct AppBuilder {
    _lang: Lang,
    _version: String,
    _schema: Option<String>,
    _stage: Stage,
    _hooks: Vec<Hook>,
}

/// The mathematical model of an `AppBuilder`.
pub struct AppBuilderView {
    pub lang: Lang,
    pub version: Seq<char>,
    /// The schema to load; `None` leaves the framework to find it.
    pub schema: Option<Seq<char>>,
    pub stage: Stage,
    /// The registrations, oldest first.
    pub hooks: Seq<(Seq<char>, HookKind)>,
}

impl View for AppBuilder {
    type V = AppBuilderView;

    closed spec fn view(&self) -> AppBuilderView {
        AppBuilderView {
            lang: self._lang,
            version: self._version@,
            schema: match self._schema {
                Some(path) => Some(path@),
                None => None,
            },
            stage: self._stage,
            hooks: self._hooks@.map_values(|hook: Hook| hook@),
        }
    }
}

impl AppBuilderView {
    /// True where no registration is without a name.
    pub open spec fn named(self) -> bool {
        forall|i: int| 0 <= i < self.hooks.len() ==> (#[trigger] self.hooks[i]).0.len() > 0
    }

    /// The builder after one more registration.
    pub open spec fn with_hook(self, name: Seq<char>, kind: HookKind) -> AppBuilderView {
        AppBuilderView { hooks: self.hooks.push((name, kind)), ..self }
    }

    /// The builder after a build was started.
    pub open spec fn built(self) -> AppBuilderView {
        AppBuilderView { stage: Stage::Built, ..self }
    }

    /// The builder after a schema was loaded: it never goes back from `Built`.
    pub open spec fn with_schema(self, schema: Option<Seq<char>>) -> AppBuilderView {
        AppBuilderView {
            schema,
            stage: if self.stage == Stage::Built {
                Stage::Built
            } else {
                Stage::Loaded
            },
            ..self
        }
    }
}

impl AppBuilder {
    /// A builder for the named environment; `None` where the name is not one
    /// of the three.
    pub fn create(lang: &str, version: &str) -> (builder: Option<AppBuilder>)
        ensures
            builder is Some <==> lang_of(lang@) is Some,
            builder matches Some(b) ==> b@ == (AppBuilderView {
                lang: lang_of(lang@).unwrap(),
                version: version@,
                schema: None,
                stage: Stage::Created,
                hooks: Seq::empty(),
            }),
    {
        match lang_from_name(lang) {
            Some(known) => {
                let builder = AppBuilder {
                    _lang: known,
                    _version: version.to_owned(),
                    _schema: None,
                    _stage: Stage::Created,
                    _hooks: Vec::new(),
                };
                assert(builder@.hooks == Seq::<(Seq<char>, HookKind)>::empty());
                Some(builder)
            },
            None => None,
        }
    }

    /// Starts a build: the builder is built from now on, and the task that
    /// comes back waits for the framework to build the application.
    pub fn build(&mut self, protocol: Protocol) -> (task: Task)
        ensures
            final(self)@ == old(self)@.built(),
            task == (Task { protocol, phase: Phase::Building }),
    {
        self._stage = Stage::Built;
        Task { protocol, phase: Phase::Building }
    }

    pub fn lang(&self) -> (lang: Lang)
        ensures
            lang == self@.lang,
    {
        self._lang
    }

    pub fn version(&self) -> (version: &str)
        ensures
            version@ == self@.version,
    {
        self._version.as_str()
    }

    pub fn schema(&self) -> (schema: Option<&str>)
        ensures
            schema is Some <==> self@.schema is Some,
            schema matches Some(path) ==> self@.schema == Some(path@),
    {
        match &self._schema {
            Some(path) => Some(path.as_str()),
            None => None,
        }
    }

    pub fn stage(&self) -> (stage: Stage)
        ensures
            stage == self@.stage,
    {
        self._stage
    }

    pub fn hook_count(&self) -> (count: usize)
        ensures
            count == self@.hooks.len(),
    {
        self._hooks.len()
    }

    pub fn hook(&self, index: usize) -> (hook: &Hook)
        requires
            index < self@.hooks.len(),
        ensures
            hook@ == self@.hooks[index as int],
    {
        &self._hooks[index]
    }

    /// Records a registration, unless it is without a name.
    pub fn register(&mut self, name: &str, kind: HookKind) -> (recorded: bool)
        ensures
            recorded == (name@.len() > 0),
            final(self)@ == if recorded {
                old(self)@.with_hook(name@, kind)
            } else {
                old(self)@
            },
    {
        if name.is_empty() {
            return false;
        }
        self._hooks.push(Hook { name: name.to_owned(), kind });
        assert(final(self)@.hooks == old(self)@.hooks.push((name@, kind)));
        true
    }
}

#[allow(non_snake_case)]
pub fn AppBuilder_Create(lang: &str, version: &str) -> (builder: AppBuilder)
    requires
        lang_of(lang@) is Some,
    ensures
        builder@ == (AppBuilderView {
            lang: lang_of(lang@).unwrap(),
            version: version@,
            schema: None,
            stage: Stage::Created,
            hooks: Seq::empty(),
        }),
{
    AppBuilder::create(lang, version).unwrap()
}

/// Records the schema to load; `None` leaves the framework to find it.
#[allow(non_snake_case)]
pub fn AppBuilder_Load(app_builder: &mut AppBuilder, schema_file_name: Option<&str>)
    ensures
        final(app_builder)@ == old(app_builder)@.with_schema(
            match schema_file_name {
                Some(path) => Some(path@),
                None => None,
            },
        ),
{
    app_builder._schema = match schema_file_name {
        Some(path) => Some(path.to_owned()),
        None => None,
    };
    if app_builder._stage != Stage::Built {
        app_builder._stage = Stage::Loaded;
    }
}

/// Starts a build whose application serves as soon as it is built.
#[allow(non_snake_case)]
pub fn AppBuilder_Build(app_builder: &mut AppBuilder) -> (task: Task)
    ensures
        final(app_builder)@ == old(app_builder)@.built(),
        task == (Task { protocol: Protocol::RunToCompletion, phase: Phase::Building }),
{
    app_builder.build(Protocol::RunToCompletion)
}

#[allow(non_snake_case)]
pub fn AppBuilder_Transform(app_builder: &mut AppBuilder, name: &str)
    requires
        name@.len() > 0,
    ensures
        final(app_builder)@ == old(app_builder)@.with_hook(name@, HookKind::Transform),
{
    app_builder.register(name, HookKind::Transform);
}

#[allow(non_snake_case)]
pub fn AppBuilder_Validate(app_builder: &mut AppBuilder, name: &str)
    requires
        name@.len() > 0,
    ensures
        final(app_builder)@ == old(app_builder)@.with_hook(name@, HookKind::Validate),
{
    app_builder.register(name, HookKind::Validate);
}

#[allow(non_snake_case)]
pub fn AppBuilder_Perform(app_builder: &mut AppBuilder, name: &str)
    requires
        name@.len() > 0,
    ensures
        final(app_builder)@ == old(app_builder)@.with_hook(name@, HookKind::Perform),
{
    app_builder.register(name, HookKind::Perform);
}

/// An environment is known by one of three names and by no other text: none
/// of another length, and none that begins with another letter, a small one
/// included.
pub proof fn law_lang_names(name: Seq<char>)
    ensures
        name.len() != 1 && name.len() != 2 && name.len() != 4 ==> lang_of(name) is None,
        name.len() > 0 && name[0] != 'G' && name[0] != 'J' && name[0] != 'C' ==> lang_of(name)
            is None,
        lang_of(name) is Some <==> name == "Go"@ || name == "Java"@ || name == "C"@,
        lang_of(name) == Some(Lang::Go) <==> name == "Go"@,
        lang_of(name) == Some(Lang::Java) <==> name == "Java"@,
        lang_of(name) == Some(Lang::C) <==> name == "C"@,
        "Go"@ == seq!['G', 'o'],
        "Java"@ == seq!['J', 'a', 'v', 'a'],
        "C"@ == seq!['C'],
{
    reveal_strlit("Go");
    reveal_strlit("Java");
    reveal_strlit("C");
    assert("Go"@ =~= seq!['G', 'o']);
    assert("Java"@ =~= seq!['J', 'a', 'v', 'a']);
    assert("C"@ =~= seq!['C']);
}

/// A builder never goes back to an earlier stage: a registration leaves the
/// stage as it is, a load brings the builder to `Loaded` at least, and a
/// build brings it to `Built`, where it stays.
pub proof fn law_stage_never_goes_back(
    builder: AppBuilderView,
    name: Seq<char>,
    kind: HookKind,
    schema: Option<Seq<char>>,
)
    ensures
        builder.with_hook(name, kind).stage == builder.stage,
        builder.with_schema(schema).stage.rank() >= builder.stage.rank(),
        builder.with_schema(schema).stage.rank() >= Stage::Loaded.rank(),
        builder.built().stage == Stage::Built,
        builder.stage == Stage::Built ==> builder.with_schema(schema).stage == Stage::Built,
        forall|stage: Stage| #[trigger] stage.rank() <= Stage::Built.rank(),
{
}

/// A builder is made without registrations, and what is done to it leaves no
/// registration without a name.
pub proof fn law_registrations_are_named(
    builder: AppBuilderView,
    name: Seq<char>,
    kind: HookKind,
    schema: Option<Seq<char>>,
)
    requires
        builder.named(),
        name.len() > 0,
    ensures
        builder.with_hook(name, kind).named(),
        builder.with_schema(schema).named(),
        builder.built().named(),
        (AppBuilderView { hooks: Seq::empty(), ..builder }).named(),
{
}

} // verus!
