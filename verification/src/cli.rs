//! What one invocation of the tool amounts to: the help text, and the plan
//! that the command line and the loaded configuration call for.

use crate::config::NotionConfig;
use vstd::prelude::*;

verus! {

/// What follows the command's name in the first line of the help text, up
/// to the example.
pub open spec fn help_body() -> Seq<char> {
    " [option]\n\nCommand line tool to quickly add items to a Notion database. Will only set the title of the new\npage, no properties.\n\nOptions include:\n\n    help      - this page\n    configure - updates values for Notion database access\n    *         - add content to Notion\n\nAll other parameters will be added to the configured Notion database as individual pages.\n\ne.g. $ "@
}

/// What follows the command's name in the example.
pub open spec fn help_tail() -> Seq<char> {
    " \"Chocolate hobnobs\" \"Beer\"\n\nWill add two new Notion pages to the configured Notion database.\n"@
}

/// The help text for a tool that was started as `command`.
pub open spec fn help_text(command: Seq<char>) -> Seq<char> {
    command + help_body() + command + help_tail()
}

/// The help text for a tool that was started as `cmd`: how to call it, what
/// the options are, and an example. The name stands at the head of the
/// text and in the example.
pub fn help(cmd: &String) -> (text: String)
    ensures
        text@ == help_text(cmd@),
{
    let mut text = cmd.clone();
    text.append(
        " [option]\n\nCommand line tool to quickly add items to a Notion database. Will only set the title of the new\npage, no properties.\n\nOptions include:\n\n    help      - this page\n    configure - updates values for Notion database access\n    *         - add content to Notion\n\nAll other parameters will be added to the configured Notion database as individual pages.\n\ne.g. $ ",
    );
    text.append(cmd.as_str());
    text.append(
        " \"Chocolate hobnobs\" \"Beer\"\n\nWill add two new Notion pages to the configured Notion database.\n",
    );
    text
}

/// What one run is to do, in this order: run the configuration flow, show
/// the help text, create one page for each title. The titles are created
/// one after the other in the order given, and each is attempted whatever
/// became of the ones before it.
#[derive(Clone, Debug, PartialEq, Eq)]
pub struct RunPlan {
    /// Run the configuration flow once, and store what it returns.
    pub configure: bool,
    /// Show the help text.
    pub help: bool,
    /// Create one page for each of these titles.
    pub titles: Vec<String>,
    /// The exit status of a run in which nothing fails.
    pub exit_code: u8,
}

/// Model of a [`RunPlan`].
pub struct PlanModel {
    pub configure: bool,
    pub help: bool,
    pub titles: Seq<Seq<char>>,
    pub exit_code: u8,
}

impl View for RunPlan {
    type V = PlanModel;

    open spec fn view(&self) -> PlanModel {
        PlanModel {
            configure: self.configure,
            help: self.help,
            titles: self.titles.deep_view(),
            exit_code: self.exit_code,
        }
    }
}

/// The plan for a run with the arguments `args`, the command's own name
/// first, and a stored configuration that is complete or not.
///
/// - Without an argument after the name: the help text, and exit status 1.
/// - A configuration that is not complete is set up first, whatever the
///   arguments ask for.
/// - `configure` sets the configuration up, once, and does nothing else.
/// - `help` shows the help text.
/// - Anything else: every argument after the name is a title. Only the
///   first argument is looked at for a command.
pub open spec fn plan_model(complete: bool, args: Seq<Seq<char>>) -> PlanModel {
    if args.len() < 2 {
        PlanModel { configure: false, help: true, titles: Seq::empty(), exit_code: 1 }
    } else if args[1] == "configure"@ {
        PlanModel { configure: true, help: false, titles: Seq::empty(), exit_code: 0 }
    } else if args[1] == "help"@ {
        PlanModel { configure: !complete, help: true, titles: Seq::empty(), exit_code: 0 }
    } else {
        PlanModel {
            configure: !complete,
            help: false,
            titles: args.subrange(1, args.len() as int),
            exit_code: 0,
        }
    }
}

/// Tells whether a run with the arguments `args` looks at the stored
/// configuration at all. A run without an argument after the command's name
/// does not: its plan is the same whatever is stored.
pub fn reads_configuration(args: &Vec<String>) -> (reads: bool)
    ensures
        reads == (args@.len() >= 2),
        !reads ==> plan_model(true, args.deep_view()) == plan_model(false, args.deep_view()),
{
    args.len() >= 2
}

/// Plans the run for the arguments `args`, the command's own name first,
/// given the configuration that was loaded.
pub fn plan_run(config: &NotionConfig, args: &Vec<String>) -> (plan: RunPlan)
    ensures
        plan@ == plan_model(config@.is_complete(), args.deep_view()),
{
    let ghost words = args.deep_view();
    if args.len() < 2 {
        let plan = RunPlan { configure: false, help: true, titles: Vec::new(), exit_code: 1 };
        assert(plan@.titles =~= Seq::<Seq<char>>::empty());
        return plan;
    }
    let complete = config.is_configured();
    if crate::text::same_text(args[1].as_str(), "configure") {
        let plan = RunPlan { configure: true, help: false, titles: Vec::new(), exit_code: 0 };
        assert(plan@.titles =~= Seq::<Seq<char>>::empty());
        return plan;
    }
    if crate::text::same_text(args[1].as_str(), "help") {
        let plan = RunPlan { configure: !complete, help: true, titles: Vec::new(), exit_code: 0 };
        assert(plan@.titles =~= Seq::<Seq<char>>::empty());
        return plan;
    }
    let mut titles: Vec<String> = Vec::new();
    let mut i: usize = 1;
    while i < args.len()
        invariant
            1 <= i <= args@.len(),
            words == args.deep_view(),
            titles@.len() == i - 1,
            forall|j: int| 0 <= j < i - 1 ==> (#[trigger] titles@[j])@ == words[j + 1],
        decreases args@.len() - i,
    {
        titles.push(args[i].clone());
        i += 1;
    }
    let plan = RunPlan { configure: !complete, help: false, titles, exit_code: 0 };
    assert(plan@.titles =~= words.subrange(1, words.len() as int));
    plan
}

/// The exit status of a run that was planned to end with `planned` and in
/// which `failed` pages could not be created: the planned status where
/// none failed, 1 otherwise.
pub open spec fn final_status(planned: u8, failed: nat) -> u8 {
    if failed == 0 {
        planned
    } else {
        1
    }
}

/// The exit status of a run of `plan` in which `failed` pages could not be
/// created.
pub fn exit_status(plan: &RunPlan, failed: usize) -> (status: u8)
    ensures
        status == final_status(plan.exit_code, failed as nat),
{
    if failed == 0 {
        plan.exit_code
    } else {
        1
    }
}

/// `configure` never creates a page: whatever the stored configuration and
/// whatever follows the word, the plan is one run of the configuration
/// flow and nothing else.
pub proof fn lemma_configure_creates_nothing(complete: bool, args: Seq<Seq<char>>)
    requires
        args.len() >= 2,
        args[1] == "configure"@,
    ensures
        plan_model(complete, args).configure,
        plan_model(complete, args).titles.len() == 0,
        !plan_model(complete, args).help,
        plan_model(complete, args).exit_code == 0,
{
}

/// With a complete configuration, titles are created and nothing else is
/// done: one page for each argument after the name, in the order of the
/// arguments, and the configuration flow does not run.
pub proof fn lemma_titles_in_argument_order(args: Seq<Seq<char>>)
    requires
        args.len() >= 2,
        args[1] != "configure"@,
        args[1] != "help"@,
    ensures
        !plan_model(true, args).configure,
        plan_model(true, args).titles.len() == args.len() - 1,
        forall|i: int|
            0 <= i < args.len() - 1 ==> #[trigger] plan_model(true, args).titles[i] == args[i + 1],
{
}

} // verus!
