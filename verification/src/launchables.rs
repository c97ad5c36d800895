//! Pinned launcher entries: two parallel ordered configuration lists, an icon
//! name and a command per position, paired up defensively.

use vstd::prelude::*;

use crate::registry::lemma_vec_deep_view;

verus! {

/// Ghost model of a [`LaunchEntry`].
#[verifier::ext_equal]
pub struct LaunchEntryModel {
    pub icon: Seq<char>,
    pub command: Seq<char>,
}

/// One pinned launcher entry: the icon shown and the command it launches.
pub struct LaunchEntry {
    pub icon: String,
    pub command: String,
}

impl View for LaunchEntry {
    type V = LaunchEntryModel;

    open spec fn view(&self) -> LaunchEntryModel {
        LaunchEntryModel { icon: self.icon@, command: self.command@ }
    }
}

impl DeepView for LaunchEntry {
    type V = LaunchEntryModel;

    open spec fn deep_view(&self) -> LaunchEntryModel {
        self.view()
    }
}

/// The entries two parallel lists yield: positionwise pairs up to the shorter
/// list's length; a position with no counterpart is dropped rather than
/// letting the mismatch fail the whole configuration.
pub open spec fn paired(icons: Seq<Seq<char>>, commands: Seq<Seq<char>>) -> Seq<LaunchEntryModel> {
    let n = if icons.len() <= commands.len() {
        icons.len()
    } else {
        commands.len()
    };
    Seq::new(n, |i: int| LaunchEntryModel { icon: icons[i], command: commands[i] })
}

/// Pairs the two configuration lists into launcher entries.
pub fn pair_launchables(icons: &Vec<String>, commands: &Vec<String>) -> (r: Vec<LaunchEntry>)
    ensures
        r.deep_view() == paired(icons.deep_view(), commands.deep_view()),
{
    proof {
        lemma_vec_deep_view(*icons);
        lemma_vec_deep_view(*commands);
    }
    let n = if icons.len() <= commands.len() {
        icons.len()
    } else {
        commands.len()
    };
    let mut r: Vec<LaunchEntry> = Vec::new();
    let mut i: usize = 0;
    while i < n
        invariant
            n == if icons.deep_view().len() <= commands.deep_view().len() {
                icons.deep_view().len()
            } else {
                commands.deep_view().len()
            },
            n <= icons@.len(),
            n <= commands@.len(),
            forall|j: int| 0 <= j < icons@.len() ==> #[trigger] icons.deep_view()[j] == icons@[j]@,
            forall|j: int|
                0 <= j < commands@.len() ==> #[trigger] commands.deep_view()[j] == commands@[j]@,
            i <= n,
            r.deep_view().len() == i,
            forall|j: int|
                0 <= j < i ==> #[trigger] r.deep_view()[j] == (LaunchEntryModel {
                    icon: icons.deep_view()[j],
                    command: commands.deep_view()[j],
                }),
        decreases n - i,
    {
        let entry = LaunchEntry { icon: icons[i].clone(), command: commands[i].clone() };
        let ghost d0 = r.deep_view();
        proof {
            lemma_vec_deep_view(r);
        }
        let ghost v0 = r@;
        r.push(entry);
        proof {
            lemma_vec_deep_view(r);
            assert(r@ == v0.push(entry));
            assert(r.deep_view() =~= d0.push(entry@));
        }
        i = i + 1;
    }
    proof {
        assert(r.deep_view() =~= paired(icons.deep_view(), commands.deep_view()));
    }
    r
}

/// The command line the shell hands the compositor for one launcher entry.
pub fn launch_command(command: &String) -> (r: String)
    ensures
        r@ == "exec "@ + command@,
{
    let prefix: String = "exec ".to_owned();
    prefix.concat(command.as_str())
}

} // verus!
