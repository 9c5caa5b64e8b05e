//! What each operation promises, said of what goes in and what comes out.
use crate::builder::{whole_seconds, BuilderView};
use crate::bytes::{list_view, option_view, pairs_view};
use crate::command::{Command, CommandView, Stdio};
use crate::configurator::{
    output_stream, place_input, placeholder, CommandConfigurator, ConfiguratorView,
    StdCommandConfigurator,
};
use crate::env::{distinct_keys, env_map};
use crate::error::{Error, NOT_PIPED};
use crate::handle::{Handle, StdErrObserver, StdOutObserver};
use crate::input::{
    decimal, is_std_input_file, std_input_file_of, HasTargetBytes, InputFile, InputLocation,
    InputLocationView,
};
use crate::laws::{
    actions_from, answered, are_turns, is_turn, law_last_setting_holds, law_run_follows_script,
    law_run_gives_result, law_turns_follow_script, named_actions, script, Outcomes, Reading, Turn,
};
use crate::path::{components_of, equal_paths, pieces, proper_pieces};
use crate::run::{consults, exit_kind_of, next, Action, Answers, Event, ExitKind, Phase, RunError};
use crate::spawn::{IoFailure, SpawnPlan, SpawnPlanView, SpawnProgress, SpawnStep};
use core::time::Duration;
use vstd::prelude::*;
use vstd::std_specs::cmp::PartialEqSpec;
use vstd::utf8::encode_utf8;

verus! {

// What a value holds.

/// A list of byte strings holds the bytes of each of its items, in order.
pub proof fn law_list_holds_its_items(list: Seq<Vec<u8>>)
    ensures
        list_view(list).len() == list.len(),
        forall|i: int| 0 <= i < list.len() ==> #[trigger] list_view(list)[i] == list[i]@,
{
}

/// A list of pairs holds the bytes of both sides of each of its pairs, in
/// order.
pub proof fn law_pairs_hold_their_sides(pairs: Seq<(Vec<u8>, Vec<u8>)>)
    ensures
        pairs_view(pairs).len() == pairs.len(),
        forall|i: int|
            0 <= i < pairs.len() ==> {
                &&& (#[trigger] pairs_view(pairs)[i]).0 == pairs[i].0@
                &&& pairs_view(pairs)[i].1 == pairs[i].1@
            },
{
}

/// A byte string that may be missing holds its bytes, if it is there.
pub proof fn law_option_holds_its_bytes(bytes: Vec<u8>)
    ensures
        option_view(Some(bytes)) == Some(bytes@),
        option_view(None) is None,
{
}

/// What is said of a command is said of the values in it.
pub proof fn law_command_holds_its_parts(command: Command)
    ensures
        command@.program == command.program@,
        command@.args.len() == command.args@.len(),
        forall|i: int|
            0 <= i < command.args@.len() ==> #[trigger] command@.args[i] == command.args@[i]@,
        command@.envs == command.envs@,
        command@.cwd is Some <==> command.cwd is Some,
        command.cwd is Some ==> command@.cwd->0 == command.cwd->0@,
        command@.stdin == command.stdin,
        command@.stdout == command.stdout,
        command@.stderr == command.stderr,
{
}

/// What is said of a plan is said of the values in it.
pub proof fn law_plan_holds_its_parts(plan: SpawnPlan)
    ensures
        plan@.command == plan.command@,
        plan@.feeds_stdin == plan.feeds_stdin,
        plan@.file is Some <==> plan.file is Some,
        plan.file is Some ==> {
            &&& (plan@.file->0).0 == plan.file->0.file.path@
            &&& (plan@.file->0).1 == plan.file->0.bytes@
        },
{
}

/// What is said of an input location is said of the values in it.
pub proof fn law_location_holds_its_parts(argnum: usize, out_file: InputFile)
    ensures
        (InputLocation::StdIn)@ is StdIn,
        (InputLocation::Arg { argnum })@ is Arg,
        (InputLocation::Arg { argnum })@->argnum == argnum,
        (InputLocation::File { out_file })@ is File,
        (InputLocation::File { out_file })@->path == out_file.path@,
{
}

/// Two input locations are equal if both are the standard input, or both the
/// same argument, or both files with the same path.
pub proof fn law_equal_locations(one: InputLocation, other: InputLocation)
    ensures
        one.eq_spec(&other) <==> {
            ||| one is StdIn && other is StdIn
            ||| one is Arg && other is Arg && one->argnum == other->argnum
            ||| one is File && other is File && equal_paths(
                one->out_file.path@,
                other->out_file.path@,
            )
        },
{
}

/// What a default input file name is made of: the fixed prefix, and behind it
/// at least one digit and nothing but digits.
pub proof fn law_default_file_name(name: Seq<char>)
    requires
        is_std_input_file(name),
    ensures
        name.len() > 11,
        name.subrange(0, 11) == seq!['.', 'c', 'u', 'r', '_', 'i', 'n', 'p', 'u', 't', '_'],
        forall|i: int| 11 <= i < name.len() ==> '0' <= #[trigger] name[i] <= '9',
{
    let id = choose|id: u32| name == #[trigger] std_input_file_of(id);
    reveal_strlit(".cur_input_");
    lemma_decimal_digits(id as nat);
    assert(name.subrange(0, 11) =~= seq!['.', 'c', 'u', 'r', '_', 'i', 'n', 'p', 'u', 't', '_']);
    assert forall|i: int| 11 <= i < name.len() implies '0' <= #[trigger] name[i] <= '9' by {
        assert(name[i] == decimal(id as nat)[i - 11]);
    }
}

/// A number in decimal is made of digits.
proof fn lemma_decimal_digits(n: nat)
    ensures
        decimal(n).len() > 0,
        forall|i: int| 0 <= i < decimal(n).len() ==> '0' <= #[trigger] decimal(n)[i] <= '9',
    decreases n,
{
    if n >= 10 {
        lemma_decimal_digits(n / 10);
    }
}

/// The value of a number in decimal: its last digit is the remainder by ten,
/// and what stands before that digit is the number without it.
pub proof fn law_decimal_digits(n: nat)
    ensures
        decimal(n).last() as int == '0' as int + n % 10,
        n < 10 ==> decimal(n).len() == 1,
        n >= 10 ==> decimal(n).drop_last() == decimal(n / 10),
{
    if n >= 10 {
        assert(decimal(n).drop_last() =~= decimal(n / 10));
    }
}

// Paths.

/// How the components of a path come about: a path without a separator is one
/// component, unless it is empty; and behind a separator a further name adds
/// one component, unless it is empty or a single dot.
pub proof fn law_components(path: Seq<u8>, name: Seq<u8>)
    requires
        forall|i: int| 0 <= i < name.len() ==> #[trigger] name[i] != 47,
    ensures
        name.len() == 0 ==> components_of(name).len() == 0,
        name.len() > 0 ==> components_of(name) == seq![name],
        name.len() == 0 || name == seq![46u8] ==> components_of(path.push(47) + name)
            == components_of(path),
        name.len() > 0 && name != seq![46u8] ==> components_of(path.push(47) + name)
            == components_of(path).push(name),
{
    lemma_name_is_one_piece(name);
    lemma_name_is_one_more_piece(path, name);
    reveal_with_fuel(proper_pieces, 2);
    assert(pieces(name).drop_last() =~= Seq::empty());
    assert(pieces(path.push(47) + name).drop_last() =~= pieces(path));
    lemma_some_piece(path);
    if name.len() > 0 {
        assert(components_of(name) =~= seq![name]);
    }
}

/// There is always a piece.
proof fn lemma_some_piece(path: Seq<u8>)
    ensures
        pieces(path).len() > 0,
    decreases path.len(),
{
    if path.len() > 0 {
        lemma_some_piece(path.drop_last());
    }
}

/// A name without a separator is one piece.
proof fn lemma_name_is_one_piece(name: Seq<u8>)
    requires
        forall|i: int| 0 <= i < name.len() ==> #[trigger] name[i] != 47,
    ensures
        pieces(name) == seq![name],
    decreases name.len(),
{
    if name.len() > 0 {
        lemma_name_is_one_piece(name.drop_last());
        assert(name.drop_last().push(name.last()) =~= name);
        assert(seq![name.drop_last()].drop_last() =~= Seq::empty());
    } else {
        assert(name =~= Seq::empty());
    }
    assert(pieces(name) =~= seq![name]);
}

/// A name behind a separator is one more piece.
proof fn lemma_name_is_one_more_piece(path: Seq<u8>, name: Seq<u8>)
    requires
        forall|i: int| 0 <= i < name.len() ==> #[trigger] name[i] != 47,
    ensures
        pieces(path.push(47) + name) == pieces(path).push(name),
    decreases name.len(),
{
    let whole = path.push(47) + name;
    if name.len() == 0 {
        assert(whole =~= path.push(47));
        assert(whole.drop_last() =~= path);
        assert(name =~= Seq::empty());
    } else {
        lemma_name_is_one_more_piece(path, name.drop_last());
        assert(whole.drop_last() =~= path.push(47) + name.drop_last());
        assert(name.drop_last().push(name.last()) =~= name);
        assert(pieces(path).push(name.drop_last()).drop_last() =~= pieces(path));
    }
    assert(pieces(whole) =~= pieces(path).push(name));
}

/// Two paths are the same if and only if both or neither start with a
/// separator and they have the same components.
pub proof fn law_equal_paths(one: Seq<u8>, other: Seq<u8>)
    ensures
        equal_paths(one, other) <==> {
            &&& (one.len() > 0 && one[0] == 47) == (other.len() > 0 && other[0] == 47)
            &&& components_of(one) == components_of(other)
        },
{
}

/// Doubling a separator, putting a dot between two separators, or adding a
/// separator to the end of a path that is not empty does not change the path.
pub proof fn law_same_paths(path: Seq<u8>, name: Seq<u8>)
    requires
        path.len() > 0,
        forall|i: int| 0 <= i < name.len() ==> #[trigger] name[i] != 47,
    ensures
        equal_paths(path.push(47), path),
        equal_paths(path.push(47).push(46), path),
        equal_paths(path.push(47).push(47) + name, path.push(47) + name),
        equal_paths(path.push(47).push(46).push(47) + name, path.push(47) + name),
{
    let nothing = Seq::<u8>::empty();
    let dot = seq![46u8];
    law_components(path, nothing);
    assert(path.push(47) + nothing =~= path.push(47));
    law_components(path, dot);
    assert(path.push(47) + dot =~= path.push(47).push(46));
    law_components(path, name);
    law_components(path.push(47), name);
    law_components(path.push(47).push(46), name);
    assert(path.push(47).push(47)[0] == path[0]);
}

/// Two names without separators are the same path only if they are the same
/// name, and so are two names behind the same path, but for a dot there.
pub proof fn law_different_paths(path: Seq<u8>, one: Seq<u8>, other: Seq<u8>)
    requires
        one != other,
        one.len() > 0,
        other.len() > 0,
        forall|i: int| 0 <= i < one.len() ==> #[trigger] one[i] != 47,
        forall|i: int| 0 <= i < other.len() ==> #[trigger] other[i] != 47,
    ensures
        !equal_paths(one, other),
        !equal_paths(path.push(47) + one, path.push(47) + other),
{
    law_components(path, one);
    law_components(path, other);
    assert(seq![one][0] == one);
    assert(seq![other][0] == other);
    let longer = components_of(path);
    assert(longer.push(one).last() == one);
    assert(longer.push(other).last() == other);
    assert(longer.push(one).len() == longer.len() + 1);
    assert(longer.push(other).len() == longer.len() + 1);
}

// Building.

/// What a builder is that nothing was set on.
pub proof fn law_fresh_builder()
    ensures
        ({
            let fresh = BuilderView::new();
            &&& fresh.program is None
            &&& fresh.args.len() == 0
            &&& fresh.envs.len() == 0
            &&& fresh.cwd is None
            &&& fresh.stdout is None
            &&& fresh.stderr is None
            &&& !fresh.debug_child
            &&& fresh.input_location is StdIn
            &&& fresh.timeout == whole_seconds(5)
        }),
{
}

/// Adding an argument puts it behind those that are there, keeps each of them
/// where it is, and changes nothing else.
pub proof fn law_arg_is_added(builder: BuilderView, arg: Seq<u8>)
    ensures
        ({
            let longer = builder.with_arg(arg);
            &&& longer.args.len() == builder.args.len() + 1
            &&& longer.args[builder.args.len() as int] == arg
            &&& forall|i: int|
                0 <= i < builder.args.len() ==> #[trigger] longer.args[i] == builder.args[i]
            &&& longer == (BuilderView { args: longer.args, ..builder })
        }),
{
}

/// Adding arguments puts them in order behind those that are there, keeps each
/// of those where it is, and changes nothing else.
pub proof fn law_args_are_added(builder: BuilderView, args: Seq<Seq<u8>>)
    ensures
        ({
            let longer = builder.with_args(args);
            &&& longer.args.len() == builder.args.len() + args.len()
            &&& forall|i: int|
                0 <= i < builder.args.len() ==> #[trigger] longer.args[i] == builder.args[i]
            &&& forall|i: int|
                0 <= i < args.len() ==> longer.args[builder.args.len() + i] == #[trigger] args[i]
            &&& longer == (BuilderView { args: longer.args, ..builder })
        }),
{
}

/// Adding arguments all at once is adding each of them in turn.
pub proof fn law_args_are_added_in_turn(
    builder: BuilderView,
    args: Seq<Seq<u8>>,
    last: Seq<u8>,
    more: Seq<Seq<u8>>,
)
    ensures
        builder.with_args(Seq::empty()) == builder,
        builder.with_args(args.push(last)) == builder.with_args(args).with_arg(last),
        builder.with_args(args).with_args(more) == builder.with_args(args + more),
{
    assert(builder.with_args(Seq::empty()) =~= builder);
    assert(builder.with_args(args.push(last)) =~= builder.with_args(args).with_arg(last));
    assert(builder.with_args(args).with_args(more) =~= builder.with_args(args + more));
}

/// Setting a variable adds the setting behind those that are there, keeps each
/// of them, and changes nothing else.
pub proof fn law_env_is_added(builder: BuilderView, key: Seq<u8>, val: Seq<u8>)
    ensures
        ({
            let richer = builder.with_env(key, val);
            &&& richer.envs.len() == builder.envs.len() + 1
            &&& richer.envs[builder.envs.len() as int].0 == key
            &&& richer.envs[builder.envs.len() as int].1 == val
            &&& forall|i: int|
                0 <= i < builder.envs.len() ==> #[trigger] richer.envs[i] == builder.envs[i]
            &&& richer == (BuilderView { envs: richer.envs, ..builder })
        }),
{
}

/// Setting variables adds the settings in order behind those that are there,
/// keeps each of those, and changes nothing else.
pub proof fn law_envs_are_added(builder: BuilderView, vars: Seq<(Seq<u8>, Seq<u8>)>)
    ensures
        ({
            let richer = builder.with_envs(vars);
            &&& richer.envs.len() == builder.envs.len() + vars.len()
            &&& forall|i: int|
                0 <= i < builder.envs.len() ==> #[trigger] richer.envs[i] == builder.envs[i]
            &&& forall|i: int|
                0 <= i < vars.len() ==> richer.envs[builder.envs.len() + i] == #[trigger] vars[i]
            &&& richer == (BuilderView { envs: richer.envs, ..builder })
        }),
{
}

/// Setting variables all at once is setting each of them in turn.
pub proof fn law_envs_are_added_in_turn(
    builder: BuilderView,
    vars: Seq<(Seq<u8>, Seq<u8>)>,
    key: Seq<u8>,
    val: Seq<u8>,
    more: Seq<(Seq<u8>, Seq<u8>)>,
)
    ensures
        builder.with_envs(Seq::empty()) == builder,
        builder.with_envs(vars.push((key, val))) == builder.with_envs(vars).with_env(key, val),
        builder.with_envs(vars).with_envs(more) == builder.with_envs(vars + more),
{
    assert(builder.with_envs(Seq::empty()) =~= builder);
    assert(builder.with_envs(vars.push((key, val))) =~= builder.with_envs(vars).with_env(key, val));
    assert(builder.with_envs(vars).with_envs(more) =~= builder.with_envs(vars + more));
}

/// The child's environment after a variable was set: that variable has the new
/// value, and all others are as they were.
pub proof fn law_env_reaches_child(builder: BuilderView, key: Seq<u8>, val: Seq<u8>)
    ensures
        builder.with_env(key, val).command().envs == builder.command().envs.insert(key, val),
{
    assert(builder.envs.push((key, val)).drop_last() =~= builder.envs);
}

/// The child's environment after variables were set: one that is not among them
/// is as it was.
pub proof fn law_other_variables_stay(
    builder: BuilderView,
    vars: Seq<(Seq<u8>, Seq<u8>)>,
    key: Seq<u8>,
)
    requires
        forall|i: int| 0 <= i < vars.len() ==> (#[trigger] vars[i]).0 != key,
    ensures
        ({
            let earlier = builder.command().envs;
            let child = builder.with_envs(vars).command().envs;
            &&& child.dom().contains(key) <==> earlier.dom().contains(key)
            &&& earlier.dom().contains(key) ==> child[key] == earlier[key]
        }),
    decreases vars.len(),
{
    if vars.len() == 0 {
        assert(builder.envs + vars =~= builder.envs);
    } else {
        let fewer = vars.drop_last();
        assert(forall|i: int| 0 <= i < fewer.len() ==> #[trigger] fewer[i] == vars[i]);
        law_other_variables_stay(builder, fewer, key);
        assert((builder.envs + vars).drop_last() =~= builder.envs + fewer);
        assert((builder.envs + vars).last() == vars[vars.len() - 1]);
    }
}

/// The child's environment after variables were set: each of them has the value
/// of its last setting.
pub proof fn law_envs_reach_child(builder: BuilderView, vars: Seq<(Seq<u8>, Seq<u8>)>, last: int)
    requires
        0 <= last < vars.len(),
        forall|j: int| last < j < vars.len() ==> (#[trigger] vars[j]).0 != vars[last].0,
    ensures
        builder.with_envs(vars).command().envs.dom().contains(vars[last].0),
        builder.with_envs(vars).command().envs[vars[last].0] == vars[last].1,
    decreases vars.len(),
{
    let fewer = vars.drop_last();
    assert((builder.envs + vars).drop_last() =~= builder.envs + fewer);
    assert((builder.envs + vars).last() == vars[vars.len() - 1]);
    if last < fewer.len() {
        assert(forall|i: int| 0 <= i < fewer.len() ==> #[trigger] fewer[i] == vars[i]);
        law_envs_reach_child(builder, fewer, last);
        assert(vars[vars.len() - 1].0 != vars[last].0);
    }
}

/// Moving the input changes nothing but where it goes. An input argument takes
/// the next place on the command line, held by the placeholder; an input file
/// gives its path to the next place.
pub proof fn law_input_is_moved(
    builder: BuilderView,
    input_location: InputLocationView,
    path: Seq<u8>,
)
    ensures
        builder.with_input(input_location) == (BuilderView { input_location, ..builder }),
        builder.with_input_arg() == (BuilderView {
            input_location: InputLocationView::Arg { argnum: builder.args.len() },
            args: builder.args.push(encode_utf8("PLACEHOLDER"@)),
            ..builder
        }),
        builder.with_input_file(path) == (BuilderView {
            input_location: InputLocationView::File { path },
            args: builder.args.push(path),
            ..builder
        }),
{
}

/// The placeholder, byte by byte.
pub proof fn law_placeholder()
    ensures
        placeholder() == seq![80u8, 76, 65, 67, 69, 72, 79, 76, 68, 69, 82],
{
    reveal_strlit("PLACEHOLDER");
    let text = "PLACEHOLDER"@;
    assert(vstd::utf8::is_ascii_chars(text));
    vstd::utf8::is_ascii_chars_encode_utf8(text);
    assert(placeholder() =~= seq![80u8, 76, 65, 67, 69, 72, 79, 76, 68, 69, 82]);
}

/// What was set on a builder is what its configurator has: the observers, the
/// time limit, the input location, and a command with the program, the
/// arguments, the directory and the variables.
pub proof fn law_settings_are_built(builder: BuilderView, key: Seq<u8>)
    requires
        builder.program is Some,
    ensures
        ({
            let built = builder.configurator();
            &&& built.stdout_observer == builder.stdout
            &&& built.stderr_observer == builder.stderr
            &&& built.timeout == builder.timeout
            &&& built.debug_child == builder.debug_child
            &&& built.input_location == builder.input_location
            &&& built.command.program == builder.program->0
            &&& built.command.args == builder.args
            &&& built.command.cwd == builder.cwd
            &&& built.command.envs.dom().contains(key) <==> exists|i: int|
                0 <= i < builder.envs.len() && (#[trigger] builder.envs[i]).0 == key
            &&& forall|i: int|
                0 <= i < builder.envs.len() && (#[trigger] builder.envs[i]).0 == key && (forall|
                    j: int,
                |
                    i < j < builder.envs.len() ==> (#[trigger] builder.envs[j]).0 != key)
                    ==> built.command.envs[key] == builder.envs[i].1
        }),
{
    law_last_setting_holds(builder.envs, key);
}

/// The streams of the command that is built. Its standard input is a pipe if
/// the input goes there, else there is none. An output is a pipe if an observer
/// was set for it, else the parent's if the child is debugged, else there is
/// none.
pub proof fn law_streams_are_built(builder: BuilderView)
    requires
        builder.program is Some,
    ensures
        ({
            let command = builder.configurator().command;
            &&& builder.input_location is StdIn ==> command.stdin is Piped
            &&& !(builder.input_location is StdIn) ==> command.stdin is Null
            &&& builder.stdout is Some ==> command.stdout is Piped
            &&& builder.stdout is None && builder.debug_child ==> command.stdout is Inherit
            &&& builder.stdout is None && !builder.debug_child ==> command.stdout is Null
            &&& builder.stderr is Some ==> command.stderr is Piped
            &&& builder.stderr is None && builder.debug_child ==> command.stderr is Inherit
            &&& builder.stderr is None && !builder.debug_child ==> command.stderr is Null
        }),
{
}

// Setting up a child.

/// What a command is that nothing was set on.
pub proof fn law_fresh_command(program: Seq<u8>)
    ensures
        ({
            let fresh = CommandView::new(program);
            &&& fresh.program == program
            &&& fresh.args.len() == 0
            &&& fresh.envs.dom() == Set::<Seq<u8>>::empty()
            &&& fresh.cwd is None
            &&& fresh.stdin is Inherit
            &&& fresh.stdout is Inherit
            &&& fresh.stderr is Inherit
        }),
{
    assert(CommandView::new(program).envs.dom() =~= Set::empty());
}

/// Settings have distinct keys if and only if no two of them are of one
/// variable.
pub proof fn law_distinct_keys(settings: Seq<(Seq<u8>, Seq<u8>)>)
    ensures
        distinct_keys(settings) <==> forall|i: int, j: int|
            #![trigger settings[i], settings[j]]
            0 <= i < settings.len() && 0 <= j < settings.len() && i != j ==> settings[i].0
                != settings[j].0,
{
}

/// Settings result in the environment that setting them one by one gives.
pub proof fn law_environment(settings: Seq<(Seq<u8>, Seq<u8>)>, key: Seq<u8>, val: Seq<u8>)
    ensures
        env_map(Seq::empty()).dom() == Set::<Seq<u8>>::empty(),
        env_map(settings.push((key, val))) == env_map(settings).insert(key, val),
{
    assert(env_map(Seq::empty()).dom() =~= Set::empty());
    assert(settings.push((key, val)).drop_last() =~= settings);
}

/// An output of the child, for each combination of what it depends on.
pub proof fn law_output_stream(debug_child: bool)
    ensures
        output_stream(debug_child, true) is Piped,
        output_stream(true, false) is Inherit,
        output_stream(false, false) is Null,
{
}

/// Placing the input replaces one argument by it, if the command line reaches
/// that far, and leaves all others where they are.
pub proof fn law_input_is_placed(args: Seq<Seq<u8>>, argnum: nat, input: Seq<u8>)
    ensures
        place_input(args, argnum, input).len() == args.len(),
        argnum < args.len() ==> place_input(args, argnum, input)[argnum as int] == input,
        forall|i: int|
            0 <= i < args.len() && i != argnum ==> #[trigger] place_input(args, argnum, input)[i]
                == args[i],
{
}

/// Which inputs have a part in what is started: those that are an argument that
/// the command line has a place for, and those that go to a file.
pub proof fn law_needed_inputs(configurator: ConfiguratorView)
    ensures
        configurator.input_location is StdIn ==> !configurator.needs_input(),
        configurator.input_location is File ==> configurator.needs_input(),
        configurator.input_location is Arg ==> (configurator.needs_input() <==> (
        configurator.input_location->argnum as int) < configurator.command.args.len()),
{
}

/// Setting up a child changes nothing of a configurator but, where the input
/// goes to the standard input, that its command has a pipe for it.
pub proof fn law_configurator_stays(configurator: ConfiguratorView)
    ensures
        configurator.input_location is StdIn ==> configurator.after_spawn() == (ConfiguratorView {
            command: CommandView { stdin: Stdio::Piped, ..configurator.command },
            ..configurator
        }),
        !(configurator.input_location is StdIn) ==> configurator.after_spawn() == configurator,
{
}

/// The placeholder is out of place only where the input would replace an
/// argument that is something else.
pub proof fn law_placeholder_out_of_place(configurator: ConfiguratorView)
    ensures
        !configurator.placeholder_in_place() <==> {
            &&& configurator.input_location is Arg
            &&& (configurator.input_location->argnum as int) < configurator.command.args.len()
            &&& configurator.command.args[configurator.input_location->argnum as int]
                != encode_utf8("PLACEHOLDER"@)
        },
{
}

/// The plan for an input that is an argument: the whole input at its offset, if
/// the command line reaches that far, and every other argument as configured;
/// the configured program, variables and directory; outputs that are piped if
/// observed, else inherited if the child is debugged, else thrown away; and
/// nothing written anywhere else.
pub proof fn law_plan_for_argument(configurator: ConfiguratorView, input: Seq<u8>)
    requires
        configurator.input_location is Arg,
    ensures
        ({
            let argnum = configurator.input_location->argnum as int;
            let plan = configurator.plan(input);
            let child = plan.command;
            let configured = configurator.command;
            &&& plan.file is None
            &&& !plan.feeds_stdin
            &&& child.program == configured.program
            &&& child.args.len() == configured.args.len()
            &&& argnum < configured.args.len() ==> child.args[argnum] == input
            &&& forall|i: int|
                0 <= i < configured.args.len() && i != argnum ==> #[trigger] child.args[i]
                    == configured.args[i]
            &&& child.envs == configured.envs
            &&& child.cwd == configured.cwd
            &&& child.stdin is Inherit
            &&& child.stdout is Piped <==> configurator.stdout_observer is Some
            &&& child.stdout is Inherit <==> configurator.stdout_observer is None
                && configurator.debug_child
            &&& child.stderr is Piped <==> configurator.stderr_observer is Some
            &&& child.stderr is Inherit <==> configurator.stderr_observer is None
                && configurator.debug_child
        }),
{
}

/// The plan for an input that goes to the standard input: the configured
/// command, with a pipe that is fed once the child runs, and no file.
pub proof fn law_plan_for_stdin(configurator: ConfiguratorView, input: Seq<u8>)
    requires
        configurator.input_location is StdIn,
    ensures
        configurator.plan(input).file is None,
        configurator.plan(input).feeds_stdin,
        configurator.plan(input).command == (CommandView {
            stdin: Stdio::Piped,
            ..configurator.command
        }),
{
}

/// The plan for an input that goes to a file: the whole input in the file, and
/// the configured command, whose standard input is not fed.
pub proof fn law_plan_for_file(configurator: ConfiguratorView, input: Seq<u8>)
    requires
        configurator.input_location is File,
    ensures
        configurator.plan(input).file == Some((configurator.input_location->path, input)),
        !configurator.plan(input).feeds_stdin,
        configurator.plan(input).command == configurator.command,
{
}

/// The input reaches the child that a standard configurator sets up, whole and
/// in one place: the bytes of the input are the argument at the configured
/// offset, or all that goes to the configured file, or are fed to the standard
/// input. All other arguments are the configured ones.
pub proof fn law_input_reaches_child<I: HasTargetBytes>(
    pre: StdCommandConfigurator,
    input: I,
    post: StdCommandConfigurator,
    plan: Result<SpawnPlan, Error>,
)
    requires
        <StdCommandConfigurator as CommandConfigurator<I>>::spawns(pre, input, post, plan),
    ensures
        plan is Ok,
        pre@.input_location is StdIn ==> {
            &&& plan->Ok_0.feeds_stdin
            &&& plan->Ok_0.command.stdin is Piped
            &&& plan->Ok_0.file is None
        },
        pre@.input_location is File ==> exists|bytes: Vec<u8>|
            {
                &&& #[trigger] call_ensures(I::target_bytes, (&input,), bytes)
                &&& plan->Ok_0.file is Some
                &&& plan->Ok_0.file->0.file.path@ == pre@.input_location->path
                &&& plan->Ok_0.file->0.bytes@ == bytes@
                &&& !plan->Ok_0.feeds_stdin
            },
        pre@.input_location is Arg && (pre@.input_location->argnum as int)
            < pre@.command.args.len() ==> exists|bytes: Vec<u8>|
            {
                &&& #[trigger] call_ensures(I::target_bytes, (&input,), bytes)
                &&& plan->Ok_0.command.args@[pre@.input_location->argnum as int]@ == bytes@
                &&& plan->Ok_0.file is None
                &&& !plan->Ok_0.feeds_stdin
            },
        plan->Ok_0.command.args@.len() == pre@.command.args.len(),
        forall|i: int|
            0 <= i < pre@.command.args.len() && !(pre@.input_location is Arg
                && pre@.input_location->argnum as int == i)
                ==> (#[trigger] plan->Ok_0.command.args@[i])@ == pre@.command.args[i],
{
    let got = plan->Ok_0;
    assert(got.command@ == got@.command);
    law_command_holds_its_parts(got.command);
    if pre@.needs_input() {
        let bytes = choose|bytes: Vec<u8>|
            {
                &&& #[trigger] call_ensures(I::target_bytes, (&input,), bytes)
                &&& got@ == pre@.plan(bytes@)
            };
        assert(call_ensures(I::target_bytes, (&input,), bytes));
        if pre@.input_location is Arg {
            let argnum = pre@.input_location->argnum as int;
            assert(got.command@.args[argnum] == bytes@);
        }
    }
    assert forall|i: int|
        0 <= i < pre@.command.args.len() && !(pre@.input_location is Arg
            && pre@.input_location->argnum as int
            == i) implies (#[trigger] got.command.args@[i])@ == pre@.command.args[i] by {
        assert(got.command@.args[i] == got.command.args@[i]@);
    }
}

/// Where the input is plain bytes, those bytes are what reaches the child.
pub proof fn law_bytes_reach_child(
    pre: StdCommandConfigurator,
    input: Vec<u8>,
    post: StdCommandConfigurator,
    plan: Result<SpawnPlan, Error>,
)
    requires
        <StdCommandConfigurator as CommandConfigurator<Vec<u8>>>::spawns(pre, input, post, plan),
    ensures
        plan is Ok,
        pre@.input_location is File ==> {
            &&& plan->Ok_0.file is Some
            &&& plan->Ok_0.file->0.file.path@ == pre@.input_location->path
            &&& plan->Ok_0.file->0.bytes@ == input@
        },
        pre@.input_location is Arg && (pre@.input_location->argnum as int)
            < pre@.command.args.len()
            ==> plan->Ok_0.command.args@[pre@.input_location->argnum as int]@ == input@,
        plan->Ok_0@ == pre@.plan(input@),
{
    law_input_reaches_child(pre, input, post, plan);
    if !pre@.needs_input() {
        assert(pre@.plan(input@) =~= pre@.plan(Seq::empty()));
    }
}

/// The child of a builder's executor is what was set on the builder: the
/// program, the directory, the variables, the arguments but for the input, and
/// its outputs.
pub proof fn law_settings_reach_child<I: HasTargetBytes>(
    builder: BuilderView,
    pre: StdCommandConfigurator,
    input: I,
    post: StdCommandConfigurator,
    plan: Result<SpawnPlan, Error>,
    key: Seq<u8>,
)
    requires
        builder.program is Some,
        pre@ == builder.configurator(),
        <StdCommandConfigurator as CommandConfigurator<I>>::spawns(pre, input, post, plan),
    ensures
        plan is Ok,
        ({
            let child = plan->Ok_0.command;
            &&& child.program@ == builder.program->0
            &&& child.cwd is Some <==> builder.cwd is Some
            &&& builder.cwd is Some ==> child.cwd->0@ == builder.cwd->0
            &&& child.args@.len() == builder.args.len()
            &&& forall|i: int|
                0 <= i < builder.args.len() && !(builder.input_location is Arg
                    && builder.input_location->argnum as int == i)
                    ==> (#[trigger] child.args@[i])@ == builder.args[i]
            &&& child.envs@.dom().contains(key) <==> exists|i: int|
                0 <= i < builder.envs.len() && (#[trigger] builder.envs[i]).0 == key
            &&& forall|i: int|
                0 <= i < builder.envs.len() && (#[trigger] builder.envs[i]).0 == key && (forall|
                    j: int,
                |
                    i < j < builder.envs.len() ==> (#[trigger] builder.envs[j]).0 != key)
                    ==> child.envs@[key] == builder.envs[i].1
            &&& child.stdout is Piped <==> builder.stdout is Some
            &&& child.stdout is Null <==> builder.stdout is None && !builder.debug_child
            &&& child.stderr is Piped <==> builder.stderr is Some
            &&& child.stderr is Null <==> builder.stderr is None && !builder.debug_child
            &&& child.stdin is Piped <==> builder.input_location is StdIn
            &&& child.stdin is Null <==> builder.input_location is File
        }),
        post@ == pre@,
{
    law_input_reaches_child(pre, input, post, plan);
    law_settings_are_built(builder, key);
    let got = plan->Ok_0;
    assert(got.command@ == got@.command);
    law_command_holds_its_parts(got.command);
    let bytes = choose|bytes: Seq<u8>| got@ == #[trigger] pre@.plan(bytes);
    assert(got@ == pre@.plan(bytes));
}

/// What follows on each step of starting a child.
pub proof fn law_steps_of_starting<E>(plan: SpawnPlanView, failure: IoFailure<E>)
    ensures
        plan.first() is WriteFile <==> plan.file is Some,
        plan.first() is Start <==> plan.file is None,
        plan.after::<E>(SpawnStep::WriteFile, Ok(())) == SpawnProgress::<E>::Next(SpawnStep::Start),
        plan.feeds_stdin ==> plan.after::<E>(SpawnStep::Start, Ok(())) == SpawnProgress::<E>::Next(
            SpawnStep::WriteStdin,
        ),
        !plan.feeds_stdin ==> plan.after::<E>(SpawnStep::Start, Ok(())) is Spawned,
        plan.after::<E>(SpawnStep::WriteStdin, Ok(())) == SpawnProgress::<E>::Next(
            SpawnStep::FlushStdin,
        ),
        plan.after::<E>(SpawnStep::FlushStdin, Ok(())) == SpawnProgress::<E>::Next(
            SpawnStep::CloseStdin,
        ),
        plan.after::<E>(SpawnStep::CloseStdin, Ok(())) is Spawned,
        plan.after(SpawnStep::CloseStdin, Err(failure)) is Spawned,
        plan.after(SpawnStep::WriteFile, Err(failure)) == SpawnProgress::Failed(failure.error),
        plan.after(SpawnStep::Start, Err(failure)) == SpawnProgress::Failed(failure.error),
        forall|step: SpawnStep|
            (step is WriteStdin || step is FlushStdin) && failure.broken_pipe
                ==> #[trigger] plan.after(step, Err(failure)) == SpawnProgress::<E>::Next(
                SpawnStep::CloseStdin,
            ),
        forall|step: SpawnStep|
            (step is WriteStdin || step is FlushStdin) && !failure.broken_pipe
                ==> #[trigger] plan.after(step, Err(failure)) == SpawnProgress::Failed(
                failure.error,
            ),
{
}

// Running.

/// How a child ended, for every signal: none is a normal exit, 9 is out of
/// memory, and any other is a crash.
pub proof fn law_signals(signal: i32)
    ensures
        exit_kind_of(None) is Normal,
        exit_kind_of(Some(9)) is Oom,
        signal != 9 ==> exit_kind_of(Some(signal)) is Crash,
{
}

/// Which events can come of the action that a run waits for.
pub proof fn law_expected_events<E>(
    kind: ExitKind,
    stdout: Handle<StdOutObserver>,
    stderr: Handle<StdErrObserver>,
    event: Event<E>,
)
    ensures
        Phase::PreExec.expects(event) <==> event is Succeeded || event is Failed,
        Phase::Spawn.expects(event) <==> event is Succeeded || event is Failed,
        Phase::Wait.expects(event) <==> event is Exited || event is TimedOut,
        Phase::Kill.expects(event) <==> event is Succeeded || event is Failed,
        Phase::Reap.expects(event) <==> event is Succeeded || event is Failed,
        Phase::PostExec(kind).expects(event) <==> event is Succeeded || event is Failed,
        Phase::ReadStdout(kind, stdout).expects(event) <==> event is Read || event is NotPiped
            || event is Failed,
        Phase::ReadStderr(kind, stderr).expects(event) <==> event is Read || event is NotPiped
            || event is Failed,
        Phase::ObserveStdout(kind).expects(event) <==> event is Succeeded,
        Phase::ObserveStderr(kind).expects(event) <==> event is Succeeded,
        !Phase::Finished.expects(event),
{
}

/// What a run says comes from the configurator: the child when it is set up,
/// the time limit when the child runs, and the observers when their outputs are
/// due. At all other times the configurator stays as it is.
pub proof fn law_configurator_is_asked<I, E, T: CommandConfigurator<I>>(
    pre: T,
    input: I,
    phase: Phase,
    event: Event<E>,
    post: T,
    answers: Answers<T::Plan, T::Error>,
)
    requires
        consults(pre, input, phase, event, post, answers),
    ensures
        phase is PreExec && event is Succeeded ==> T::spawns(pre, input, post, answers.plan),
        !(phase is PreExec && event is Succeeded) ==> post == pre,
        phase is Spawn && event is Succeeded ==> call_ensures(
            <T as CommandConfigurator<I>>::exec_timeout,
            (&pre,),
            answers.timeout,
        ),
        phase is PostExec && event is Succeeded ==> call_ensures(
            <T as CommandConfigurator<I>>::stdout_observer,
            (&pre,),
            answers.stdout,
        ),
        phase is PostExec && event is Succeeded && answers.stdout is None ==> call_ensures(
            <T as CommandConfigurator<I>>::stderr_observer,
            (&pre,),
            answers.stderr,
        ),
        phase is ObserveStdout ==> call_ensures(
            <T as CommandConfigurator<I>>::stderr_observer,
            (&pre,),
            answers.stderr,
        ),
{
}

/// How a run goes on from each of its phases, up to the report on the child.
pub proof fn law_run_up_to_report<P, R, E>(
    error: E,
    signal: i32,
    answers: Answers<P, R>,
    other: Event<E>,
)
    ensures
        next(Phase::PreExec, Event::Failed(error), answers) == (
            Phase::Finished,
            Action::<P, R, E>::Return(Err(RunError::Outside(error))),
        ),
        answers.plan is Ok ==> next(Phase::PreExec, Event::<E>::Succeeded, answers) == (
            Phase::Spawn,
            Action::<P, R, E>::Spawn(answers.plan->Ok_0),
        ),
        answers.plan is Err ==> next(Phase::PreExec, Event::<E>::Succeeded, answers) == (
            Phase::Finished,
            Action::<P, R, E>::Return(Err(RunError::Configurator(answers.plan->Err_0))),
        ),
        next(Phase::Spawn, Event::Failed(error), answers) == (
            Phase::Finished,
            Action::<P, R, E>::Return(Err(RunError::Outside(error))),
        ),
        next(Phase::Spawn, Event::<E>::Succeeded, answers) == (
            Phase::Wait,
            Action::<P, R, E>::Wait(answers.timeout),
        ),
        next(Phase::Wait, Event::<E>::Exited(None), answers) == (
            Phase::PostExec(ExitKind::Normal),
            Action::<P, R, E>::PostExec(ExitKind::Normal),
        ),
        next(Phase::Wait, Event::<E>::Exited(Some(9)), answers) == (
            Phase::PostExec(ExitKind::Oom),
            Action::<P, R, E>::PostExec(ExitKind::Oom),
        ),
        signal != 9 ==> next(Phase::Wait, Event::<E>::Exited(Some(signal)), answers) == (
            Phase::PostExec(ExitKind::Crash),
            Action::<P, R, E>::PostExec(ExitKind::Crash),
        ),
        next(Phase::Wait, Event::<E>::TimedOut, answers) == (
            Phase::Kill,
            Action::<P, R, E>::Kill,
        ),
        next(Phase::Kill, other, answers) == (Phase::Reap, Action::<P, R, E>::Reap),
        next(Phase::Reap, other, answers) == (
            Phase::PostExec(ExitKind::Timeout),
            Action::<P, R, E>::PostExec(ExitKind::Timeout),
        ),
{
}

/// How a run goes on from each of its phases, from the report on the child to
/// its end.
pub proof fn law_run_from_report<P, R, E>(
    kind: ExitKind,
    error: E,
    bytes: Vec<u8>,
    stdout: Handle<StdOutObserver>,
    stderr: Handle<StdErrObserver>,
    answers: Answers<P, R>,
)
    ensures
        next(Phase::PostExec(kind), Event::Failed(error), answers) == (
            Phase::Finished,
            Action::<P, R, E>::Return(Err(RunError::Outside(error))),
        ),
        answers.stdout == Some(stdout) ==> next(
            Phase::PostExec(kind),
            Event::<E>::Succeeded,
            answers,
        ) == (Phase::ReadStdout(kind, stdout), Action::<P, R, E>::ReadStdout),
        next(Phase::ReadStdout(kind, stdout), Event::<E>::Read(bytes), answers) == (
            Phase::ObserveStdout(kind),
            Action::<P, R, E>::ObserveStdout(stdout, bytes),
        ),
        next(Phase::ReadStdout(kind, stdout), Event::Failed(error), answers) == (
            Phase::Finished,
            Action::<P, R, E>::Return(Err(RunError::Outside(error))),
        ),
        next(Phase::ReadStdout(kind, stdout), Event::<E>::NotPiped, answers) == (
            Phase::Finished,
            Action::<P, R, E>::Return(Err(RunError::Executor(Error::IllegalState(NOT_PIPED)))),
        ),
        forall|phase: Phase|
            #![trigger next(phase, Event::<E>::Succeeded, answers)]
            phase == Phase::ObserveStdout(kind) || phase == Phase::PostExec(kind)
                && answers.stdout is None ==> {
                &&& answers.stderr == Some(stderr) ==> next(phase, Event::<E>::Succeeded, answers)
                    == (Phase::ReadStderr(kind, stderr), Action::<P, R, E>::ReadStderr)
                &&& answers.stderr is None ==> next(phase, Event::<E>::Succeeded, answers) == (
                    Phase::Finished,
                    Action::<P, R, E>::Return(Ok(kind)),
                )
            },
        next(Phase::ReadStderr(kind, stderr), Event::<E>::Read(bytes), answers) == (
            Phase::ObserveStderr(kind),
            Action::<P, R, E>::ObserveStderr(stderr, bytes),
        ),
        next(Phase::ReadStderr(kind, stderr), Event::Failed(error), answers) == (
            Phase::Finished,
            Action::<P, R, E>::Return(Err(RunError::Outside(error))),
        ),
        next(Phase::ReadStderr(kind, stderr), Event::<E>::NotPiped, answers) == (
            Phase::Finished,
            Action::<P, R, E>::Return(Err(RunError::Executor(Error::IllegalState(NOT_PIPED)))),
        ),
        next(Phase::ObserveStderr(kind), Event::<E>::Succeeded, answers) == (
            Phase::Finished,
            Action::<P, R, E>::Return(Ok(kind)),
        ),
{
}

/// A run has a result if and only if nothing failed: the observers could be
/// told, the child could be set up and started, and every observed output could
/// be read.
pub proof fn law_run_succeeds<P, R, E>(outcomes: Outcomes<E>, answers: Answers<P, R>)
    ensures
        ({
            let actions = actions_from(Phase::PreExec, outcomes, answers);
            &&& actions.len() > 0
            &&& actions.last() is Return
            &&& actions.last()->Return_0 is Ok <==> {
                &&& outcomes.pre_exec is Ok
                &&& answers.plan is Ok
                &&& outcomes.spawn is Ok
                &&& outcomes.post_exec is Ok
                &&& answers.stdout is Some ==> outcomes.stdout is Read
                &&& answers.stderr is Some ==> outcomes.stderr is Read
            }
        }),
{
    law_run_gives_result(outcomes, answers);
}

/// What a run tells its observers of how the child ended, and what it returns
/// if it has a result, is how the child ended: by itself, by signal 9, by
/// another signal, or not in time.
pub proof fn law_run_reports_how_child_ended<P, R, E>(
    outcomes: Outcomes<E>,
    answers: Answers<P, R>,
    kind: ExitKind,
)
    requires
        ({
            let actions = actions_from(Phase::PreExec, outcomes, answers);
            ||| actions.contains(Action::PostExec(kind))
            ||| actions.contains(Action::Return(Ok(kind)))
        }),
    ensures
        outcomes.exit is None <==> kind is Timeout,
        outcomes.exit == Some(None::<i32>) <==> kind is Normal,
        outcomes.exit == Some(Some(9i32)) <==> kind is Oom,
        (outcomes.exit is Some && outcomes.exit->0 is Some && outcomes.exit->0 != Some(9i32))
            <==> kind is Crash,
{
    law_run_follows_script(outcomes, answers);
}

/// The same of the turns that an executor takes, whatever its configurator.
pub proof fn law_turns_report_how_child_ended<I, E, T: CommandConfigurator<I>>(
    turns: Seq<Turn<T, T::Plan, T::Error, E>>,
    input: I,
    outcomes: Outcomes<E>,
    k: int,
    kind: ExitKind,
)
    requires
        are_turns(turns, input, outcomes),
        turns[0].phase is PreExec,
        0 <= k < turns.len(),
        turns[k].action == Action::<T::Plan, T::Error, E>::PostExec(kind) || turns[k].action
            == Action::<T::Plan, T::Error, E>::Return(Ok(kind)),
    ensures
        outcomes.exit is None <==> kind is Timeout,
        outcomes.exit == Some(None::<i32>) <==> kind is Normal,
        outcomes.exit == Some(Some(9i32)) <==> kind is Oom,
        (outcomes.exit is Some && outcomes.exit->0 is Some && outcomes.exit->0 != Some(9i32))
            <==> kind is Crash,
{
    law_turns_follow_script(turns, input, outcomes);
    let answers = choose|answers: Answers<T::Plan, T::Error>|
        named_actions(turns) == #[trigger] script(outcomes, answers);
    law_run_follows_script(outcomes, answers);
    assert(named_actions(turns)[k] == turns[k].action);
    law_run_reports_how_child_ended(outcomes, answers, kind);
}

/// The turns of a run whose child was started, up to the report: which they are,
/// and that none of them changes what a standard configurator answers with.
proof fn lemma_turns_up_to_report<I: HasTargetBytes, E>(
    turns: Seq<Turn<StdCommandConfigurator, SpawnPlan, Error, E>>,
    input: I,
    outcomes: Outcomes<E>,
) -> (report: int)
    requires
        are_turns(turns, input, outcomes),
        turns[0].phase is PreExec,
        outcomes.pre_exec is Ok,
        outcomes.spawn is Ok,
    ensures
        turns.len() > report > 1,
        turns[1].phase is Spawn,
        turns[1].event is Succeeded,
        turns[report].phase is PostExec,
        turns[1].before@ == turns[0].before@.after_spawn(),
        turns[report].before@ == turns[0].before@.after_spawn(),
{
    let first = turns[0];
    assert(is_turn(first, input));
    assert(first.following is Spawn);
    assert(turns.len() > 1);
    let second = turns[1];
    assert(is_turn(second, input));
    assert(second.following is Wait);
    assert(turns.len() > 2);
    let third = turns[2];
    assert(is_turn(third, input));
    assert(turns.len() > 3);
    let fourth = turns[3];
    assert(is_turn(fourth, input));
    if outcomes.exit is Some {
        assert(fourth.phase is PostExec);
        3
    } else {
        assert(fourth.phase is Kill);
        assert(fourth.following is Reap);
        assert(turns.len() > 4);
        let fifth = turns[4];
        assert(is_turn(fifth, input));
        assert(fifth.following is PostExec);
        assert(turns.len() > 5);
        assert(turns[5].phase is PostExec);
        5
    }
}

/// What the script of a run names in which nothing fails.
proof fn lemma_actions_of_good_run<P, R, E>(
    outcomes: Outcomes<E>,
    answers: Answers<P, R>,
    stdout: Vec<u8>,
    stderr: Vec<u8>,
)
    requires
        outcomes.pre_exec is Ok,
        answers.plan is Ok,
        outcomes.spawn is Ok,
        outcomes.post_exec is Ok,
        outcomes.stdout == Reading::<E>::Read(stdout),
        outcomes.stderr == Reading::<E>::Read(stderr),
    ensures
        ({
            let actions = script(outcomes, answers);
            &&& forall|limit: Duration|
                #![trigger actions.contains(Action::Wait(limit))]
                actions.contains(Action::Wait(limit)) <==> limit == answers.timeout
            &&& forall|handle: Handle<StdOutObserver>, bytes: Vec<u8>|
                #![trigger actions.contains(Action::ObserveStdout(handle, bytes))]
                actions.contains(Action::ObserveStdout(handle, bytes)) <==> answers.stdout == Some(
                    handle,
                ) && bytes == stdout
            &&& forall|handle: Handle<StdErrObserver>, bytes: Vec<u8>|
                #![trigger actions.contains(Action::ObserveStderr(handle, bytes))]
                actions.contains(Action::ObserveStderr(handle, bytes)) <==> answers.stderr == Some(
                    handle,
                ) && bytes == stderr
        }),
{
    let actions = script(outcomes, answers);
    let outputs: int = if outcomes.exit is Some {
        3
    } else {
        5
    };
    let errors: int = outputs + if answers.stdout is Some {
        2int
    } else {
        0
    };
    assert(actions[1] == Action::<P, R, E>::Wait(answers.timeout));
    if answers.stdout is Some {
        assert(actions[outputs + 1] == Action::<P, R, E>::ObserveStdout(answers.stdout->0, stdout));
    }
    if answers.stderr is Some {
        assert(actions[errors + 1] == Action::<P, R, E>::ObserveStderr(answers.stderr->0, stderr));
    }
}

/// A run of a builder's executor gives the child the time that was set on the
/// builder, and gives what the child wrote to the observers that were set, and
/// to no others.
pub proof fn law_builder_settings_hold_in_run<I: HasTargetBytes, E>(
    builder: BuilderView,
    turns: Seq<Turn<StdCommandConfigurator, SpawnPlan, Error, E>>,
    input: I,
    outcomes: Outcomes<E>,
    stdout: Vec<u8>,
    stderr: Vec<u8>,
)
    requires
        builder.program is Some,
        are_turns(turns, input, outcomes),
        turns[0].phase is PreExec,
        turns[0].before@ == builder.configurator(),
        outcomes.pre_exec is Ok,
        outcomes.spawn is Ok,
        outcomes.post_exec is Ok,
        outcomes.stdout == Reading::<E>::Read(stdout),
        outcomes.stderr == Reading::<E>::Read(stderr),
    ensures
        ({
            let actions = named_actions(turns);
            &&& forall|limit: Duration|
                #![trigger actions.contains(Action::Wait(limit))]
                actions.contains(Action::Wait(limit)) <==> limit == builder.timeout
            &&& forall|handle: Handle<StdOutObserver>, bytes: Vec<u8>|
                #![trigger actions.contains(Action::ObserveStdout(handle, bytes))]
                actions.contains(Action::ObserveStdout(handle, bytes)) <==> builder.stdout == Some(
                    handle,
                ) && bytes == stdout
            &&& forall|handle: Handle<StdErrObserver>, bytes: Vec<u8>|
                #![trigger actions.contains(Action::ObserveStderr(handle, bytes))]
                actions.contains(Action::ObserveStderr(handle, bytes)) <==> builder.stderr == Some(
                    handle,
                ) && bytes == stderr
        }),
{
    let report = lemma_turns_up_to_report(turns, input, outcomes);
    law_turns_follow_script(turns, input, outcomes);
    let answers = choose|answers: Answers<SpawnPlan, Error>|
        {
            &&& named_actions(turns) == #[trigger] script(outcomes, answers)
            &&& forall|k: int|
                0 <= k < turns.len() ==> answered(#[trigger] turns[k], input, answers)
        };
    assert(answered(turns[1], input, answers));
    assert(answers.timeout == builder.timeout);
    assert(answered(turns[report], input, answers));
    assert(turns[report].event is Succeeded);
    assert(answers.stdout == builder.stdout);
    assert(answered(turns[0], input, answers));
    if answers.stdout is Some {
        assert(is_turn(turns[report], input));
        assert(turns[report].following is ReadStdout);
        assert(turns.len() > report + 1);
        assert(is_turn(turns[report + 1], input));
        assert(turns[report + 1].following is ObserveStdout);
        assert(turns.len() > report + 2);
        assert(turns[report + 2].before@ == turns[report].before@);
        assert(answered(turns[report + 2], input, answers));
    }
    assert(answers.stderr == builder.stderr);
    lemma_actions_of_good_run(outcomes, answers, stdout, stderr);
}

} // verus!
