use vstd::prelude::*;
use vstd::string::StringExecFns;

use crate::error::BotError;
use crate::sources::{all_sources, all_strategies, source_slug, strategy_slug, DataSourceName, StrategyName};

verus! {

/// The colour of a child's log prefix.
#[derive(Clone, Copy, Debug, PartialEq, Eq, Structural)]
pub enum Color {
    Blue,
    Green,
    Cyan,
    Red,
}

/// How to launch one supervised child: its program, arguments, start delay, and the name and
/// colour that prefix its log lines.
#[derive(Clone, Debug)]
pub struct CommandSpec {
    pub cmd: String,
    pub args: Vec<String>,
    pub delay_secs: Option<u64>,
    pub color: Color,
    pub name: String,
}

/// The characters of each string.
pub open spec fn texts(v: Seq<String>) -> Seq<Seq<char>> {
    v.map_values(|s: String| s@)
}

/// The browser driver's launch: `geckodriver --log error`, in blue.
pub open spec fn is_driver_spec(c: CommandSpec) -> bool {
    &&& c.cmd@ == "geckodriver"@
    &&& texts(c.args@) == seq!["--log"@, "error"@]
    &&& c.delay_secs is None
    &&& c.color == Color::Blue
    &&& c.name@ == "geckodriver"@
}

/// A data source's launch: `<exe> data-source <name>`, in green.
pub open spec fn is_source_spec(c: CommandSpec, exe: Seq<char>, n: DataSourceName) -> bool {
    &&& c.cmd@ == exe
    &&& texts(c.args@) == seq!["data-source"@, source_slug(n)]
    &&& c.delay_secs is None
    &&& c.color == Color::Green
    &&& c.name@ == source_slug(n)
}

/// A strategy's launch: `<exe> strategy <name> --date <date>`, in cyan.
pub open spec fn is_strategy_spec(c: CommandSpec, exe: Seq<char>, n: StrategyName, date: Seq<char>) -> bool {
    &&& c.cmd@ == exe
    &&& texts(c.args@) == seq!["strategy"@, strategy_slug(n), "--date"@, date]
    &&& c.delay_secs is None
    &&& c.color == Color::Cyan
    &&& c.name@ == strategy_slug(n)
}

fn strings2(a: &str, b: &str) -> (r: Vec<String>)
    ensures
        texts(r@) == seq![a@, b@],
{
    let r = vec![String::from_str(a), String::from_str(b)];
    assert(texts(r@) =~= seq![a@, b@]);
    r
}

fn strings4(a: &str, b: &str, c: &str, d: &str) -> (r: Vec<String>)
    ensures
        texts(r@) == seq![a@, b@, c@, d@],
{
    let r = vec![String::from_str(a), String::from_str(b), String::from_str(c), String::from_str(d)];
    assert(texts(r@) =~= seq![a@, b@, c@, d@]);
    r
}

/// The children the supervisor starts: the browser driver, then every data source, then every
/// strategy for the trading day `date`, each source and strategy run as a subcommand of `exe`.
pub fn system_services(exe: &str, date: &str) -> (r: Vec<CommandSpec>)
    ensures
        r@.len() == 1 + all_sources().len() + all_strategies().len(),
        is_driver_spec(r@[0]),
        forall|k: int| 0 <= k < all_sources().len() ==> is_source_spec(#[trigger] r@[1 + k], exe@, all_sources()[k]),
        forall|k: int|
            0 <= k < all_strategies().len() ==> is_strategy_spec(
                #[trigger] r@[1 + all_sources().len() + k],
                exe@,
                all_strategies()[k],
                date@,
            ),
{
    let mut services: Vec<CommandSpec> = Vec::new();
    services.push(CommandSpec {
        cmd: String::from_str("geckodriver"),
        args: strings2("--log", "error"),
        delay_secs: None,
        color: Color::Blue,
        name: String::from_str("geckodriver"),
    });
    let sources = DataSourceName::all();
    let mut i: usize = 0;
    while i < sources.len()
        invariant
            sources@ == all_sources(),
            i <= sources@.len(),
            services@.len() == 1 + i,
            is_driver_spec(services@[0]),
            forall|k: int| 0 <= k < i ==> is_source_spec(#[trigger] services@[1 + k], exe@, all_sources()[k]),
        decreases sources@.len() - i,
    {
        let name = sources[i].as_str();
        services.push(CommandSpec {
            cmd: String::from_str(exe),
            args: strings2("data-source", name),
            delay_secs: None,
            color: Color::Green,
            name: String::from_str(name),
        });
        i = i + 1;
    }
    let strategies = StrategyName::all();
    let mut j: usize = 0;
    while j < strategies.len()
        invariant
            sources@ == all_sources(),
            strategies@ == all_strategies(),
            j <= strategies@.len(),
            services@.len() == 1 + sources@.len() + j,
            is_driver_spec(services@[0]),
            forall|k: int| 0 <= k < sources@.len() ==> is_source_spec(#[trigger] services@[1 + k], exe@, all_sources()[k]),
            forall|k: int|
                0 <= k < j ==> is_strategy_spec(
                    #[trigger] services@[1 + all_sources().len() + k],
                    exe@,
                    all_strategies()[k],
                    date@,
                ),
        decreases strategies@.len() - j,
    {
        let name = strategies[j].as_str();
        services.push(CommandSpec {
            cmd: String::from_str(exe),
            args: strings4("strategy", name, "--date", date),
            delay_secs: None,
            color: Color::Cyan,
            name: String::from_str(name),
        });
        j = j + 1;
    }
    services
}

/// What a child's exit means: success, or `ChildFailed` with its name and exit code.
pub fn child_outcome(name: &str, success: bool, code: Option<i32>) -> (r: Result<(), BotError>)
    ensures
        success <==> r is Ok,
        r matches Err(e) ==> (e matches BotError::ChildFailed { name: n, code: c } && n@ == name@
            && c == code),
{
    if success {
        Ok(())
    } else {
        Err(BotError::ChildFailed { name: String::from_str(name), code })
    }
}

} // verus!
