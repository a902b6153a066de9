//! The details of one process, read from what the host's tools print about
//! it: its command line, its environment, the files and connections it has
//! open, and its owner.

use crate::listing::{name_of, texts};
use crate::platform::{borrow_text, str_of, text_of};
use crate::split::{fields, join, lines, rows, split_fields, split_lines};
use crate::text::{
    chars_of, contains, contains_pattern, find, find_first, lemma_find_from, same_chars,
    slice_of, string_from_chars, trim, trimmed,
};
use vstd::prelude::*;

verus! {

/// How many open files are listed at most.
pub const OPEN_FILES_LISTED: usize = 50;

/// How many connections are listed at most.
pub const CONNECTIONS_LISTED: usize = 20;

/// The details of one process.
#[derive(Debug, Clone)]
pub struct ProcessDetails {
    pub pid: u32,
    pub executable_path: String,
    pub arguments: Vec<String>,
    /// The environment, one entry for each variable, in the order in which
    /// the variables were first seen.
    pub environment: Vec<(String, String)>,
    pub open_files: Vec<String>,
    pub connections: Vec<String>,
    pub user: String,
    pub group: String,
}

/// What the host's tools printed about a process; `None` where a tool could
/// not be run or reported failure.
#[derive(Debug, Clone)]
pub struct ProcessSources {
    /// The path of the executable.
    pub executable_path: Option<String>,
    /// The command line.
    pub command: Option<String>,
    /// The process listing with the environment.
    pub environment: Option<String>,
    /// The open-file listing.
    pub open_files: Option<String>,
    /// The open-file listing of network handles.
    pub network_files: Option<String>,
    /// The name of the owning user.
    pub user: Option<String>,
    /// The name of the owning group.
    pub group: Option<String>,
}

/// `a[i..]` comes before `b[i..]` in lexicographic order of the characters'
/// code points; both agree up to `i`.
pub open spec fn lex_less_from(a: Seq<char>, b: Seq<char>, i: int) -> bool
    decreases b.len() - i,
{
    if i < 0 || i >= b.len() {
        false
    } else if i >= a.len() {
        true
    } else if a[i] != b[i] {
        a[i] < b[i]
    } else {
        lex_less_from(a, b, i + 1)
    }
}

/// `a` comes before `b` in lexicographic order.
pub open spec fn lex_less(a: Seq<char>, b: Seq<char>) -> bool {
    lex_less_from(a, b, 0)
}

/// The first index at or after `i` whose name does not come before `x`.
pub open spec fn place_from(sorted: Seq<Seq<char>>, x: Seq<char>, i: int) -> int
    decreases sorted.len() - i,
{
    if 0 <= i < sorted.len() && lex_less(sorted[i], x) {
        place_from(sorted, x, i + 1)
    } else {
        i
    }
}

/// `sorted` with `x` put in its place, unless it is there already.
pub open spec fn with_name(sorted: Seq<Seq<char>>, x: Seq<char>) -> Seq<Seq<char>> {
    let p = place_from(sorted, x, 0);
    if 0 <= p < sorted.len() && sorted[p] == x {
        sorted
    } else {
        sorted.insert(p, x)
    }
}

/// The first `n` of `names` in lexicographic order, each once.
pub open spec fn sorted_names(names: Seq<Seq<char>>, n: int) -> Seq<Seq<char>>
    decreases n,
{
    if n <= 0 || n > names.len() {
        Seq::empty()
    } else {
        with_name(sorted_names(names, n - 1), names[n - 1])
    }
}

/// The first `limit` of `names`, or all of them.
pub open spec fn capped(names: Seq<Seq<char>>, limit: int) -> Seq<Seq<char>> {
    if names.len() > limit {
        names.subrange(0, limit)
    } else {
        names
    }
}

/// The arguments that a command line holds: its fields.
pub open spec fn arguments_of(command: Option<Seq<char>>) -> Seq<Seq<char>> {
    match command {
        Some(text) => fields(trim(text)),
        None => Seq::empty(),
    }
}

/// The variable that a line of the environment listing sets: what precedes
/// the first `=` is the name, what follows it the value.
pub open spec fn variable_of(line: Seq<char>) -> Option<(Seq<char>, Seq<char>)> {
    match find(line, "="@) {
        Some(at) => Some((line.subrange(0, at), line.subrange(at + 1, line.len() as int))),
        None => None,
    }
}

/// The first index below `n` at which `variables` holds `name`, or `-1`.
pub open spec fn variable_index(variables: Seq<(Seq<char>, Seq<char>)>, name: Seq<char>, n: int) -> int
    decreases n,
{
    if n <= 0 || n > variables.len() {
        -1
    } else if variable_index(variables, name, n - 1) >= 0 {
        variable_index(variables, name, n - 1)
    } else if variables[n - 1].0 == name {
        n - 1
    } else {
        -1
    }
}

/// `variables` after `name` has been set to `value`.
pub open spec fn with_variable(
    variables: Seq<(Seq<char>, Seq<char>)>,
    name: Seq<char>,
    value: Seq<char>,
) -> Seq<(Seq<char>, Seq<char>)> {
    let i = variable_index(variables, name, variables.len() as int);
    if i >= 0 {
        variables.update(i, (name, value))
    } else {
        variables.push((name, value))
    }
}

/// The environment that the lines `1..n` of the listing set; line 0 is the
/// header. A later line for a variable replaces its value.
pub open spec fn environment_in(all: Seq<Seq<char>>, n: int) -> Seq<(Seq<char>, Seq<char>)>
    decreases n,
{
    if n <= 1 || n > all.len() {
        Seq::empty()
    } else {
        match variable_of(all[n - 1]) {
            Some((name, value)) => with_variable(environment_in(all, n - 1), name, value),
            None => environment_in(all, n - 1),
        }
    }
}

/// The environment that a listing sets.
pub open spec fn environment_of(listing: Option<Seq<char>>) -> Seq<(Seq<char>, Seq<char>)> {
    match listing {
        Some(text) => environment_in(lines(text), lines(text).len() as int),
        None => Seq::empty(),
    }
}

/// The name on a line of the open-file listing, where the handle is a
/// regular file, a directory or a pipe.
pub open spec fn file_name_of(line: Seq<char>) -> Option<Seq<char>> {
    let row = fields(line);
    if row.len() >= 9 && (row[4] == "REG"@ || row[4] == "DIR"@ || row[4] == "PIPE"@) {
        Some(join(row.subrange(8, row.len() as int), " "@))
    } else {
        None
    }
}

/// The files that the lines `1..n` of the open-file listing name.
pub open spec fn files_in(all: Seq<Seq<char>>, n: int) -> Seq<Seq<char>>
    decreases n,
{
    if n <= 1 || n > all.len() {
        Seq::empty()
    } else {
        match file_name_of(all[n - 1]) {
            Some(name) => files_in(all, n - 1).push(name),
            None => files_in(all, n - 1),
        }
    }
}

/// The open files that a listing names: in lexicographic order, each once,
/// and no more than 50.
pub open spec fn open_files_of(listing: Option<Seq<char>>) -> Seq<Seq<char>> {
    match listing {
        Some(text) => {
            let all = files_in(lines(text), lines(text).len() as int);
            capped(sorted_names(all, all.len() as int), 50)
        },
        None => Seq::empty(),
    }
}

/// The name on a line of the open-file listing, where it names a TCP or UDP
/// connection.
pub open spec fn connection_name_of(line: Seq<char>) -> Option<Seq<char>> {
    let row = fields(line);
    if row.len() >= 9 {
        let name = join(row.subrange(8, row.len() as int), " "@);
        if contains(name, "TCP"@) || contains(name, "UDP"@) {
            Some(name)
        } else {
            None
        }
    } else {
        None
    }
}

/// The connections that the lines `1..n` of the listing name.
pub open spec fn connections_in(all: Seq<Seq<char>>, n: int) -> Seq<Seq<char>>
    decreases n,
{
    if n <= 1 || n > all.len() {
        Seq::empty()
    } else {
        match connection_name_of(all[n - 1]) {
            Some(name) => connections_in(all, n - 1).push(name),
            None => connections_in(all, n - 1),
        }
    }
}

/// The connections that a listing names, in its order, and no more than 20.
pub open spec fn connections_of(listing: Option<Seq<char>>) -> Seq<Seq<char>> {
    match listing {
        Some(text) => capped(connections_in(lines(text), lines(text).len() as int), 20),
        None => Seq::empty(),
    }
}

/// The name of an owner: what the tool printed, trimmed, or `unknown`.
pub open spec fn owner_of(output: Option<Seq<char>>) -> Seq<char> {
    match output {
        Some(text) => trim(text),
        None => "unknown"@,
    }
}

/// The views of a run of variables.
pub open spec fn variable_views(variables: Seq<(String, String)>) -> Seq<(Seq<char>, Seq<char>)> {
    variables.map_values(|v: (String, String)| (v.0@, v.1@))
}

/// Whether `a` comes before `b` in lexicographic order.
pub fn comes_before(a: &Vec<char>, b: &Vec<char>) -> (r: bool)
    ensures
        r == lex_less(a@, b@),
{
    let mut i: usize = 0;
    while i < a.len() && i < b.len()
        invariant
            i <= a@.len(),
            i <= b@.len(),
            lex_less(a@, b@) == lex_less_from(a@, b@, i as int),
        decreases b@.len() - i,
    {
        if a[i] != b[i] {
            return a[i] < b[i];
        }
        i = i + 1;
    }
    i < b.len()
}

/// Puts the names in lexicographic order, each once.
pub fn sort_names(names: &Vec<Vec<char>>) -> (sorted: Vec<Vec<char>>)
    ensures
        rows(sorted@) == sorted_names(rows(names@), names@.len() as int),
{
    let mut sorted: Vec<Vec<char>> = Vec::new();
    let mut n: usize = 0;
    while n < names.len()
        invariant
            n <= names@.len(),
            rows(sorted@) == sorted_names(rows(names@), n as int),
        decreases names@.len() - n,
    {
        let x = &names[n];
        let ghost before = rows(sorted@);
        let mut p: usize = 0;
        while p < sorted.len() && comes_before(&sorted[p], x)
            invariant
                p <= sorted@.len(),
                before == rows(sorted@),
                place_from(before, x@, 0) == place_from(before, x@, p as int),
            decreases sorted@.len() - p,
        {
            p = p + 1;
        }
        if !(p < sorted.len() && same_chars(&sorted[p], x)) {
            let copy = slice_of(x, 0, x.len());
            sorted.insert(p, copy);
            assert forall|j: int| 0 <= j < sorted@.len() implies rows(sorted@)[j] == before.insert(
                p as int,
                x@,
            )[j] by {
            }
        }
        n = n + 1;
    }
    sorted
}

/// The texts of the first `limit` of `names`, or of all of them.
fn first_texts(names: &Vec<Vec<char>>, limit: usize) -> (out: Vec<String>)
    ensures
        texts(out@) == capped(rows(names@), limit as int),
{
    let mut out: Vec<String> = Vec::new();
    let mut i: usize = 0;
    while i < names.len() && i < limit
        invariant
            i <= names@.len(),
            i <= limit,
            out@.len() == i,
            forall|j: int| 0 <= j < i ==> (#[trigger] out@[j])@ == names@[j]@,
        decreases names@.len() - i,
    {
        out.push(string_from_chars(&names[i]));
        i = i + 1;
    }
    out
}

/// Reads the arguments of a process from its command line.
pub fn get_process_arguments(command: Option<&str>) -> (arguments: Vec<String>)
    ensures
        texts(arguments@) == arguments_of(str_of(command)),
{
    match command {
        Some(text) => {
            let parts = split_fields(&trimmed(&chars_of(text)));
            let all = first_texts(&parts, parts.len());
            all
        },
        None => {
            let none: Vec<String> = Vec::new();
            none
        },
    }
}

/// Reads the environment of a process from the listing that shows it.
pub fn get_process_environment(listing: Option<&str>) -> (environment: Vec<(String, String)>)
    ensures
        variable_views(environment@) == environment_of(str_of(listing)),
        each_variable_once(variable_views(environment@)),
{
    proof {
        if let Some(text) = str_of(listing) {
            lemma_environment_once(lines(text), lines(text).len() as int);
        }
    }
    let mut environment: Vec<(String, String)> = Vec::new();
    let text = match listing {
        Some(text) => text,
        None => {
            return environment;
        },
    };
    let all = split_lines(&chars_of(text));
    let equals = chars_of("=");
    let mut i: usize = 1;
    while i < all.len()
        invariant
            1 <= i,
            i <= all@.len() || all@.len() == 0,
            rows(all@) == lines(text@),
            equals@ == "="@,
            variable_views(environment@) == environment_in(rows(all@), i as int),
        decreases all@.len() - i,
    {
        let line = &all[i];
        let length = line.len();
        match find_first(line, &equals) {
            Some(at) => {
                proof {
                    reveal_strlit("=");
                    lemma_find_from(line@, "="@, 0);
                }
                let name = slice_of(line, 0, at);
                let value = string_from_chars(&slice_of(line, at + 1, length));
                let ghost before = variable_views(environment@);
                let found = find_variable(&environment, &name);
                match found {
                    Some(at) => {
                        proof {
                            lemma_variable_named(before, name@, before.len() as int);
                        }
                        let old_entry = environment.remove(at);
                        environment.insert(at, (old_entry.0, value));
                    },
                    None => {
                        environment.push((string_from_chars(&name), value));
                    },
                }
            },
            None => {},
        }
        i = i + 1;
    }
    environment
}

/// What `variable_index` returns is a variable of that name.
proof fn lemma_variable_named(variables: Seq<(Seq<char>, Seq<char>)>, name: Seq<char>, n: int)
    requires
        0 <= n <= variables.len(),
    ensures
        -1 <= variable_index(variables, name, n) < n,
        variable_index(variables, name, n) >= 0 ==> variables[variable_index(
            variables,
            name,
            n,
        )].0 == name,
    decreases n,
{
    if n > 0 {
        lemma_variable_named(variables, name, n - 1);
    }
}

/// The index of the variable `name`.
fn find_variable(environment: &Vec<(String, String)>, name: &Vec<char>) -> (found: Option<usize>)
    ensures
        found is Some <==> variable_index(
            variable_views(environment@),
            name@,
            environment@.len() as int,
        ) >= 0,
        found matches Some(i) ==> i < environment@.len() && i == variable_index(
            variable_views(environment@),
            name@,
            environment@.len() as int,
        ),
{
    let ghost all = variable_views(environment@);
    let mut k: usize = 0;
    while k < environment.len()
        invariant
            k <= environment@.len(),
            all == variable_views(environment@),
            variable_index(all, name@, k as int) < 0,
        decreases environment@.len() - k,
    {
        if same_chars(&chars_of(environment[k].0.as_str()), name) {
            proof {
                lemma_variable_index(all, name@, k as int, all.len() as int);
            }
            return Some(k);
        }
        k = k + 1;
    }
    None
}

/// A variable `name` at `i`, with none before it, is what every longer
/// search finds.
proof fn lemma_variable_index(
    variables: Seq<(Seq<char>, Seq<char>)>,
    name: Seq<char>,
    i: int,
    n: int,
)
    requires
        0 <= i < n <= variables.len(),
        variable_index(variables, name, i) < 0,
        variables[i].0 == name,
    ensures
        variable_index(variables, name, n) == i,
    decreases n,
{
    if n > i + 1 {
        lemma_variable_index(variables, name, i, n - 1);
    }
}

/// What `variable_index` returns is the first entry of that name.
proof fn lemma_variable_found(variables: Seq<(Seq<char>, Seq<char>)>, name: Seq<char>, n: int)
    requires
        0 <= n <= variables.len(),
    ensures
        -1 <= variable_index(variables, name, n) < n,
        variable_index(variables, name, n) >= 0 ==> variables[variable_index(
            variables,
            name,
            n,
        )].0 == name,
        variable_index(variables, name, n) < 0 ==> forall|j: int|
            0 <= j < n ==> (#[trigger] variables[j]).0 != name,
    decreases n,
{
    if n > 0 {
        lemma_variable_found(variables, name, n - 1);
    }
}

/// No variable has two entries.
pub open spec fn each_variable_once(variables: Seq<(Seq<char>, Seq<char>)>) -> bool {
    forall|i: int, j: int|
        0 <= i < j < variables.len() ==> (#[trigger] variables[i]).0 != (#[trigger] variables[j]).0
}

/// An environment read from a listing has one entry for each variable.
pub proof fn lemma_environment_once(all: Seq<Seq<char>>, n: int)
    ensures
        each_variable_once(environment_in(all, n)),
    decreases n,
{
    if 1 < n <= all.len() {
        lemma_environment_once(all, n - 1);
        let before = environment_in(all, n - 1);
        match variable_of(all[n - 1]) {
            Some((name, value)) => {
                lemma_variable_found(before, name, before.len() as int);
            },
            None => {},
        }
    }
}

/// Reads the files that a process has open from its open-file listing:
/// regular files, directories and pipes, in lexicographic order, each once,
/// and no more than 50.
pub fn get_open_files(listing: Option<&str>) -> (files: Vec<String>)
    ensures
        texts(files@) == open_files_of(str_of(listing)),
{
    let text = match listing {
        Some(text) => text,
        None => {
            let none: Vec<String> = Vec::new();
            return none;
        },
    };
    let all = split_lines(&chars_of(text));
    let mut names: Vec<Vec<char>> = Vec::new();
    let mut i: usize = 1;
    while i < all.len()
        invariant
            1 <= i,
            i <= all@.len() || all@.len() == 0,
            rows(all@) == lines(text@),
            rows(names@) == files_in(rows(all@), i as int),
        decreases all@.len() - i,
    {
        let row = split_fields(&all[i]);
        if row.len() >= 9 {
            let kind = &row[4];
            if same_chars(kind, &chars_of("REG")) || same_chars(kind, &chars_of("DIR"))
                || same_chars(kind, &chars_of("PIPE")) {
                let name = name_of(&row);
                names.push(name);
            }
        }
        i = i + 1;
    }
    let sorted = sort_names(&names);
    first_texts(&sorted, OPEN_FILES_LISTED)
}

/// Reads the connections that a process has open from its open-file listing
/// of network handles: those whose name holds `TCP` or `UDP`, in the order
/// of the listing, and no more than 20.
pub fn get_network_connections(listing: Option<&str>) -> (connections: Vec<String>)
    ensures
        texts(connections@) == connections_of(str_of(listing)),
{
    let text = match listing {
        Some(text) => text,
        None => {
            let none: Vec<String> = Vec::new();
            return none;
        },
    };
    let all = split_lines(&chars_of(text));
    let mut names: Vec<Vec<char>> = Vec::new();
    let mut i: usize = 1;
    while i < all.len()
        invariant
            1 <= i,
            i <= all@.len() || all@.len() == 0,
            rows(all@) == lines(text@),
            rows(names@) == connections_in(rows(all@), i as int),
        decreases all@.len() - i,
    {
        let row = split_fields(&all[i]);
        if row.len() >= 9 {
            let name = name_of(&row);
            if contains_pattern(&name, &chars_of("TCP")) || contains_pattern(
                &name,
                &chars_of("UDP"),
            ) {
                names.push(name);
            }
        }
        i = i + 1;
    }
    first_texts(&names, CONNECTIONS_LISTED)
}

/// The name of the user or group that owns a process: what the tool
/// printed, trimmed, or `unknown` where it printed nothing.
pub fn get_process_owner(output: Option<&str>) -> (name: String)
    ensures
        name@ == owner_of(str_of(output)),
{
    match output {
        Some(text) => string_from_chars(&trimmed(&chars_of(text))),
        None => "unknown".to_owned(),
    }
}

impl ProcessDetails {
    /// Puts the details of process `pid` together from what the host's
    /// tools printed. What a tool did not print is left empty; an owner that
    /// is not known is called `unknown`.
    pub fn new(pid: u32, sources: &ProcessSources) -> (details: Option<Self>)
        ensures
            details matches Some(d) && {
                &&& d.pid == pid
                &&& d.executable_path@ == match sources.executable_path {
                    Some(path) => path@,
                    None => Seq::<char>::empty(),
                }
                &&& texts(d.arguments@) == arguments_of(text_of(sources.command))
                &&& variable_views(d.environment@) == environment_of(text_of(sources.environment))
                &&& texts(d.open_files@) == open_files_of(text_of(sources.open_files))
                &&& texts(d.connections@) == connections_of(text_of(sources.network_files))
                &&& d.user@ == owner_of(text_of(sources.user))
                &&& d.group@ == owner_of(text_of(sources.group))
            },
    {
        Some(
            ProcessDetails {
                pid,
                executable_path: match &sources.executable_path {
                    Some(path) => path.clone(),
                    None => String::new(),
                },
                arguments: get_process_arguments(borrow_text(&sources.command)),
                environment: get_process_environment(borrow_text(&sources.environment)),
                open_files: get_open_files(borrow_text(&sources.open_files)),
                connections: get_network_connections(borrow_text(&sources.network_files)),
                user: get_process_owner(borrow_text(&sources.user)),
                group: get_process_owner(borrow_text(&sources.group)),
            },
        )
    }
}

/// Counts the handles in an open-file listing: its lines but the header.
pub fn count_open_files(listing: &str) -> (count: usize)
    ensures
        count == if lines(listing@).len() == 0 {
            0int
        } else {
            lines(listing@).len() - 1
        },
{
    let all = split_lines(&chars_of(listing));
    if all.len() == 0 {
        0
    } else {
        all.len() - 1
    }
}

/// `names` are in lexicographic order, each before the next.
pub open spec fn ascending(names: Seq<Seq<char>>) -> bool {
    forall|i: int, j: int| 0 <= i < j < names.len() ==> lex_less(names[i], names[j])
}

/// Of two different texts that agree up to `i`, one comes before the other.
proof fn lemma_lex_total(a: Seq<char>, b: Seq<char>, i: int)
    requires
        0 <= i <= a.len(),
        i <= b.len(),
        forall|k: int| 0 <= k < i ==> a[k] == b[k],
    ensures
        lex_less_from(a, b, i) || lex_less_from(b, a, i) || a == b,
        !(lex_less_from(a, b, i) && lex_less_from(b, a, i)),
        a == b ==> !lex_less_from(a, b, i),
    decreases a.len() + b.len() - 2 * i,
{
    if i < a.len() && i < b.len() && a[i] == b[i] {
        lemma_lex_total(a, b, i + 1);
    }
}

/// The order is transitive.
proof fn lemma_lex_transitive(a: Seq<char>, b: Seq<char>, c: Seq<char>, i: int)
    requires
        0 <= i,
        lex_less_from(a, b, i),
        lex_less_from(b, c, i),
    ensures
        lex_less_from(a, c, i),
    decreases c.len() - i,
{
    if i < a.len() && i < b.len() && i < c.len() && a[i] == b[i] && b[i] == c[i] {
        lemma_lex_transitive(a, b, c, i + 1);
    }
}

/// What `place_from` skips comes before `x`, and where it stops does not.
proof fn lemma_place(sorted: Seq<Seq<char>>, x: Seq<char>, i: int)
    requires
        0 <= i <= sorted.len(),
    ensures
        i <= place_from(sorted, x, i) <= sorted.len(),
        forall|k: int| i <= k < place_from(sorted, x, i) ==> lex_less(#[trigger] sorted[k], x),
        place_from(sorted, x, i) < sorted.len() ==> !lex_less(sorted[place_from(sorted, x, i)], x),
    decreases sorted.len() - i,
{
    if i < sorted.len() && lex_less(sorted[i], x) {
        lemma_place(sorted, x, i + 1);
    }
}

/// Putting a name in its place keeps the order.
proof fn lemma_with_name(sorted: Seq<Seq<char>>, x: Seq<char>)
    requires
        ascending(sorted),
    ensures
        ascending(with_name(sorted, x)),
        with_name(sorted, x).contains(x),
        forall|y: Seq<char>| sorted.contains(y) ==> with_name(sorted, x).contains(y),
        forall|y: Seq<char>| with_name(sorted, x).contains(y) ==> y == x || sorted.contains(y),
{
    lemma_place(sorted, x, 0);
    let p = place_from(sorted, x, 0);
    let out = with_name(sorted, x);
    if !(p < sorted.len() && sorted[p] == x) {
        assert(out[p] == x);
        assert forall|i: int, j: int| 0 <= i < j < out.len() implies lex_less(out[i], out[j]) by {
            if i == p {
                lemma_lex_total(sorted[p], x, 0);
                if j - 1 > p {
                    assert(lex_less(sorted[p], sorted[j - 1]));
                    lemma_lex_transitive(x, sorted[p], sorted[j - 1], 0);
                }
            } else if i < p && j - 1 == p {
                lemma_lex_total(sorted[p], x, 0);
                lemma_lex_transitive(sorted[i], x, sorted[p], 0);
            }
        }
        assert forall|y: Seq<char>| sorted.contains(y) implies out.contains(y) by {
            let k = choose|k: int| 0 <= k < sorted.len() && sorted[k] == y;
            if k < p {
                assert(out[k] == y);
            } else {
                assert(out[k + 1] == y);
            }
        }
        assert forall|y: Seq<char>| out.contains(y) implies y == x || sorted.contains(y) by {
            let k = choose|k: int| 0 <= k < out.len() && out[k] == y;
        }
    }
}

/// Sorted names are in lexicographic order, each before the next, so that
/// none occurs twice; and they are exactly the names that were given.
pub proof fn lemma_sorted_names(names: Seq<Seq<char>>, n: int)
    requires
        0 <= n <= names.len(),
    ensures
        ascending(sorted_names(names, n)),
        forall|k: int| 0 <= k < n ==> sorted_names(names, n).contains(#[trigger] names[k]),
        forall|y: Seq<char>|
            sorted_names(names, n).contains(y) ==> exists|k: int| 0 <= k < n && names[k] == y,
    decreases n,
{
    if n > 0 {
        lemma_sorted_names(names, n - 1);
        lemma_with_name(sorted_names(names, n - 1), names[n - 1]);
        let before = sorted_names(names, n - 1);
        let after = sorted_names(names, n);
        assert forall|y: Seq<char>| after.contains(y) implies exists|k: int|
            0 <= k < n && names[k] == y by {
            if y != names[n - 1] {
                assert(before.contains(y));
            }
        }
    }
}

} // verus!
