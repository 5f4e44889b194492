//! Layouts: named lists of commands that initialise a new session, and the
//! flattening of a layout with what it inherits.

use crate::text::{texts, texts_of};
use vstd::prelude::*;

verus! {

/// A named, inheritable list of commands.
#[derive(Debug, Clone, PartialEq, Eq)]
pub struct LayoutDefinition {
    /// The name by which workspace definitions and other layouts refer to it.
    pub name: String,
    /// Layouts whose commands run first, in this order.
    pub inherits: Option<Vec<String>>,
    /// Commands that run after the inherited ones.
    pub commands: Option<Vec<String>>,
}

/// Why a layout cannot be flattened.
#[derive(Debug, Clone, PartialEq, Eq)]
pub enum LayoutError {
    /// The named layout inherits, directly or through others, from itself.
    InheritanceCycle { layout: String },
}

impl LayoutDefinition {
    /// The names this layout inherits from; none when `inherits` is unset.
    pub open spec fn parents(&self) -> Seq<String> {
        match self.inherits {
            Some(names) => names@,
            None => Seq::empty(),
        }
    }

    /// This layout's own commands; none when `commands` is unset.
    pub open spec fn own_commands(&self) -> Seq<Seq<char>> {
        match self.commands {
            Some(commands) => texts_of(commands@),
            None => Seq::empty(),
        }
    }
}

/// The position of the first layout at or after `start` that is named `name`.
pub open spec fn find_layout(layouts: Seq<LayoutDefinition>, name: Seq<char>, start: int) -> Option<
    int,
>
    decreases layouts.len() - start,
{
    if start < 0 || start >= layouts.len() {
        None
    } else if layouts[start].name@ == name {
        Some(start)
    } else {
        find_layout(layouts, name, start + 1)
    }
}

/// What `find_layout` finds is a layout of that name with none before it.
pub proof fn find_layout_is_first(layouts: Seq<LayoutDefinition>, name: Seq<char>, start: int)
    requires
        0 <= start,
    ensures
        match find_layout(layouts, name, start) {
            Some(i) => start <= i < layouts.len() && layouts[i].name@ == name && forall|j: int|
                start <= j < i ==> (#[trigger] layouts[j]).name@ != name,
            None => forall|j: int|
                start <= j < layouts.len() ==> (#[trigger] layouts[j]).name@ != name,
        },
    decreases layouts.len() - start,
{
    if start < layouts.len() && layouts[start].name@ != name {
        find_layout_is_first(layouts, name, start + 1);
    }
}

/// The commands of `layout`: those of each layout it inherits from, in the
/// listed order and each flattened in turn, then its own. A layout reached
/// along several paths contributes its commands each time. `ancestors` holds
/// the positions of the layouts being flattened around this one.
pub open spec fn flatten_layout(
    layouts: Seq<LayoutDefinition>,
    layout: LayoutDefinition,
    ancestors: Seq<int>,
) -> Result<Seq<Seq<char>>, Seq<char>>
    decreases layouts.len() - ancestors.len(), 2int, 0int,
{
    match flatten_parents(layouts, layout.parents(), 0, ancestors) {
        Ok(inherited) => Ok(inherited + layout.own_commands()),
        Err(name) => Err(name),
    }
}

/// The flattened commands of the layouts named `names[k..]`, one after the
/// other. The first cycle met ends the flattening.
pub open spec fn flatten_parents(
    layouts: Seq<LayoutDefinition>,
    names: Seq<String>,
    k: int,
    ancestors: Seq<int>,
) -> Result<Seq<Seq<char>>, Seq<char>>
    decreases layouts.len() - ancestors.len(), 1int, names.len() - k,
{
    if k < 0 || k >= names.len() {
        Ok(Seq::empty())
    } else {
        match flatten_name(layouts, names[k]@, ancestors) {
            Ok(first) => match flatten_parents(layouts, names, k + 1, ancestors) {
                Ok(rest) => Ok(first + rest),
                Err(name) => Err(name),
            },
            Err(name) => Err(name),
        }
    }
}

/// The flattened commands of the layout named `name`: none when there is no
/// such layout, and the error `Err(name)` when it is one of `ancestors`, that
/// is, when it inherits from itself. The test on the length of `ancestors`
/// bounds the recursion and decides nothing: see `chain_is_short`.
pub open spec fn flatten_name(
    layouts: Seq<LayoutDefinition>,
    name: Seq<char>,
    ancestors: Seq<int>,
) -> Result<Seq<Seq<char>>, Seq<char>>
    decreases layouts.len() - ancestors.len(), 0int, 0int,
{
    match find_layout(layouts, name, 0) {
        None => Ok(Seq::empty()),
        Some(i) => if ancestors.contains(i) || ancestors.len() >= layouts.len() {
            Err(name)
        } else {
            flatten_layout(layouts, layouts[i], ancestors.push(i))
        },
    }
}

/// `ancestors` holds positions in a list of `count` layouts, none twice.
pub open spec fn is_chain(ancestors: Seq<int>, count: int) -> bool {
    &&& ancestors.no_duplicates()
    &&& forall|k: int| 0 <= k < ancestors.len() ==> 0 <= #[trigger] ancestors[k] < count
}

/// A chain that does not yet hold position `i` is shorter than the list of
/// layouts, so the length test in `flatten_name` never fires on a chain.
pub proof fn chain_is_short(ancestors: Seq<int>, count: int, i: int)
    requires
        is_chain(ancestors, count),
        0 <= i < count,
        !ancestors.contains(i),
    ensures
        ancestors.len() < count,
        is_chain(ancestors.push(i), count),
{
    let longer = ancestors.push(i);
    assert(longer.no_duplicates()) by {
        assert forall|a: int, b: int| 0 <= a < longer.len() && 0 <= b < longer.len() && a != b implies longer[a]
            != longer[b] by {
            if a < ancestors.len() && b < ancestors.len() {
            } else if a < ancestors.len() {
                assert(ancestors.contains(ancestors[a]));
            } else {
                assert(ancestors.contains(ancestors[b]));
            }
        }
    }
    longer.unique_seq_to_set();
    vstd::set_lib::lemma_int_range(0, count);
    assert(longer.to_set().subset_of(vstd::set_lib::set_int_range(0, count))) by {
        assert forall|x: int| longer.to_set().contains(x) implies vstd::set_lib::set_int_range(
            0,
            count,
        ).contains(x) by {
            let k = choose|k: int| 0 <= k < longer.len() && longer[k] == x;
            if k < ancestors.len() {
                assert(longer[k] == ancestors[k]);
            }
        }
    }
    vstd::set_lib::lemma_len_subset(longer.to_set(), vstd::set_lib::set_int_range(0, count));
}

/// The commands of `layout` with all it inherits from among `layouts`.
pub open spec fn flattened(layouts: Seq<LayoutDefinition>, layout: LayoutDefinition) -> Result<
    Seq<Seq<char>>,
    Seq<char>,
> {
    flatten_layout(layouts, layout, Seq::empty())
}

/// The commands of the layout named `name` among `layouts`, with all it
/// inherits; none when no layout has that name.
pub open spec fn flattened_by_name(layouts: Seq<LayoutDefinition>, name: Seq<char>) -> Result<
    Seq<Seq<char>>,
    Seq<char>,
> {
    flatten_name(layouts, name, Seq::empty())
}

/// A layout that inherits nothing flattens to its own commands.
pub proof fn flattened_without_parents(layouts: Seq<LayoutDefinition>, layout: LayoutDefinition)
    requires
        layout.parents().len() == 0,
    ensures
        flattened(layouts, layout) == Ok::<Seq<Seq<char>>, Seq<char>>(layout.own_commands()),
{
    assert(Seq::<Seq<char>>::empty() + layout.own_commands() =~= layout.own_commands());
}

/// A layout that inherits from one layout, which inherits nothing,
/// flattens to the commands of that layout and then its own.
pub proof fn flattened_with_one_parent(
    layouts: Seq<LayoutDefinition>,
    layout: LayoutDefinition,
    base: int,
)
    requires
        layout.parents().len() == 1,
        find_layout(layouts, layout.parents()[0]@, 0) == Some(base),
        0 <= base < layouts.len(),
        layouts[base].parents().len() == 0,
    ensures
        flattened(layouts, layout) == Ok::<Seq<Seq<char>>, Seq<char>>(
            layouts[base].own_commands() + layout.own_commands(),
        ),
{
    let none = Seq::<int>::empty();
    let names = layout.parents();
    let inherited = flatten_layout(layouts, layouts[base], none.push(base));
    assert(!none.contains(base));
    assert(flatten_parents(layouts, layouts[base].parents(), 0, none.push(base)) == Ok::<
        Seq<Seq<char>>,
        Seq<char>,
    >(Seq::empty()));
    assert(Seq::<Seq<char>>::empty() + layouts[base].own_commands()
        =~= layouts[base].own_commands());
    assert(inherited == Ok::<Seq<Seq<char>>, Seq<char>>(layouts[base].own_commands()));
    assert(flatten_name(layouts, names[0]@, none) == inherited);
    assert(flatten_parents(layouts, names, 1, none) == Ok::<Seq<Seq<char>>, Seq<char>>(
        Seq::empty(),
    ));
    assert(layouts[base].own_commands() + Seq::<Seq<char>>::empty()
        =~= layouts[base].own_commands());
    assert(flatten_parents(layouts, names, 0, none) == Ok::<Seq<Seq<char>>, Seq<char>>(
        layouts[base].own_commands(),
    ));
}

/// The first layout named `name`, if any.
pub fn get_layout_by_name<'a>(name: &str, layouts: &'a [LayoutDefinition]) -> (found: Option<
    &'a LayoutDefinition,
>)
    ensures
        match find_layout(layouts@, name@, 0) {
            Some(i) => found == Some(&layouts@[i]),
            None => found is None,
        },
{
    match layout_position(name, layouts) {
        Some(i) => Some(&layouts[i]),
        None => None,
    }
}

/// The position of the first layout named `name`, if any.
fn layout_position(name: &str, layouts: &[LayoutDefinition]) -> (found: Option<usize>)
    ensures
        match find_layout(layouts@, name@, 0) {
            Some(i) => found matches Some(position) && position as int == i && 0 <= i
                < layouts@.len(),
            None => found is None,
        },
{
    let mut i: usize = 0;
    while i < layouts.len()
        invariant
            i <= layouts.len(),
            find_layout(layouts@, name@, 0) == find_layout(layouts@, name@, i as int),
        decreases layouts.len() - i,
    {
        if layouts[i].name.as_str().eq(name) {
            return Some(i);
        }
        i += 1;
    }
    None
}

/// Whether `ancestors` holds `position`.
fn on_chain(ancestors: &Vec<usize>, position: usize) -> (found: bool)
    ensures
        found == positions(ancestors@).contains(position as int),
{
    let mut k: usize = 0;
    while k < ancestors.len()
        invariant
            k <= ancestors.len(),
            forall|j: int| 0 <= j < k ==> ancestors@[j] != position,
        decreases ancestors.len() - k,
    {
        if ancestors[k] == position {
            assert(positions(ancestors@)[k as int] == position as int);
            return true;
        }
        k += 1;
    }
    false
}

/// The positions of a chain as integers.
pub open spec fn positions(ancestors: Seq<usize>) -> Seq<int> {
    Seq::new(ancestors.len(), |k: int| ancestors[k] as int)
}

/// The commands that a new session of `layout` is sent: those of every
/// layout it inherits from among `layouts`, then its own. A name that no
/// layout has contributes nothing. A layout that inherits from itself is an
/// error, which names it.
pub fn get_commands_from_layout<'a: 'c, 'b: 'c, 'c>(
    layout: &'a LayoutDefinition,
    layouts: &'b [LayoutDefinition],
) -> (commands: Result<Vec<&'c str>, LayoutError>)
    ensures
        match flattened(layouts@, *layout) {
            Ok(expected) => commands matches Ok(list) && texts(list@) == expected,
            Err(name) => commands matches Err(LayoutError::InheritanceCycle { layout: cyclic })
                && cyclic@ == name,
        },
{
    let ancestors: Vec<usize> = Vec::new();
    assert(positions(ancestors@) =~= Seq::<int>::empty());
    commands_below(layout, layouts, &ancestors)
}

/// The commands of the layout named `layout_name` among `layouts`, as
/// `get_commands_from_layout` gives them; none when no layout has that name.
pub fn get_commands_from_layout_name<'a: 'c, 'b: 'c, 'c>(
    layout_name: &'a str,
    layouts: &'b [LayoutDefinition],
) -> (commands: Result<Vec<&'c str>, LayoutError>)
    ensures
        match flattened_by_name(layouts@, layout_name@) {
            Ok(expected) => commands matches Ok(list) && texts(list@) == expected,
            Err(name) => commands matches Err(LayoutError::InheritanceCycle { layout: cyclic })
                && cyclic@ == name,
        },
{
    let ancestors: Vec<usize> = Vec::new();
    assert(positions(ancestors@) =~= Seq::<int>::empty());
    commands_of_name(layout_name, layouts, &ancestors)
}

fn commands_below<'a: 'c, 'b: 'c, 'c>(
    layout: &'a LayoutDefinition,
    layouts: &'b [LayoutDefinition],
    ancestors: &Vec<usize>,
) -> (commands: Result<Vec<&'c str>, LayoutError>)
    requires
        is_chain(positions(ancestors@), layouts@.len() as int),
    ensures
        match flatten_layout(layouts@, *layout, positions(ancestors@)) {
            Ok(expected) => commands matches Ok(list) && texts(list@) == expected,
            Err(name) => commands matches Err(LayoutError::InheritanceCycle { layout: cyclic })
                && cyclic@ == name,
        },
    decreases layouts@.len() - ancestors@.len(), 2int, 0int,
{
    let mut commands: Vec<&'c str> = Vec::new();
    if let Some(inherits_list) = &layout.inherits {
        let mut k: usize = 0;
        assert(texts(commands@) =~= Seq::<Seq<char>>::empty());
        while k < inherits_list.len()
            invariant
                k <= inherits_list.len(),
                layout.inherits == Some(*inherits_list),
                is_chain(positions(ancestors@), layouts@.len() as int),
                match flatten_parents(layouts@, inherits_list@, k as int, positions(ancestors@)) {
                    Ok(rest) => flatten_parents(layouts@, inherits_list@, 0, positions(ancestors@))
                        == Ok::<Seq<Seq<char>>, Seq<char>>(texts(commands@) + rest),
                    Err(name) => flatten_parents(
                        layouts@,
                        inherits_list@,
                        0,
                        positions(ancestors@),
                    ) == Err::<Seq<Seq<char>>, Seq<char>>(name),
                },
            decreases inherits_list.len() - k,
        {
            match commands_of_name(inherits_list[k].as_str(), layouts, ancestors) {
                Ok(inherited) => {
                    let ghost before = texts(commands@);
                    let mut j: usize = 0;
                    while j < inherited.len()
                        invariant
                            j <= inherited.len(),
                            texts(commands@) == before + texts(inherited@).take(j as int),
                        decreases inherited.len() - j,
                    {
                        let ghost shorter = commands@;
                        commands.push(inherited[j]);
                        assert(commands@ == shorter.push(inherited@[j as int]));
                        assert(texts(commands@) =~= texts(shorter).push(inherited@[j as int]@));
                        assert(texts(inherited@).take(j + 1) =~= texts(inherited@).take(
                            j as int,
                        ).push(inherited@[j as int]@));
                        j += 1;
                    }
                    proof {
                        assert(texts(inherited@).take(inherited@.len() as int) =~= texts(
                            inherited@,
                        ));
                        match flatten_parents(
                            layouts@,
                            inherits_list@,
                            k + 1,
                            positions(ancestors@),
                        ) {
                            Ok(rest) => {
                                assert(before + (texts(inherited@) + rest) =~= (before + texts(
                                    inherited@,
                                )) + rest);
                            },
                            Err(_) => {},
                        }
                    }
                },
                Err(error) => {
                    return Err(error);
                },
            }
            k += 1;
        }
        assert(texts(commands@) + Seq::<Seq<char>>::empty() =~= texts(commands@));
    } else {
        assert(texts(commands@) =~= Seq::<Seq<char>>::empty());
    }
    let ghost inherited_all = texts(commands@);
    if let Some(layout_commands) = &layout.commands {
        let mut j: usize = 0;
        while j < layout_commands.len()
            invariant
                j <= layout_commands.len(),
                texts(commands@) == inherited_all + texts_of(layout_commands@).take(j as int),
            decreases layout_commands.len() - j,
        {
            let ghost shorter = commands@;
            let command = layout_commands[j].as_str();
            commands.push(command);
            assert(commands@ == shorter.push(command));
            assert(texts(commands@) =~= texts(shorter).push(layout_commands@[j as int]@));
            assert(texts_of(layout_commands@).take(j + 1) =~= texts_of(layout_commands@).take(
                j as int,
            ).push(layout_commands@[j as int]@));
            j += 1;
        }
        assert(texts_of(layout_commands@).take(layout_commands@.len() as int) =~= texts_of(
            layout_commands@,
        ));
    } else {
        assert(inherited_all + Seq::<Seq<char>>::empty() =~= inherited_all);
    }
    Ok(commands)
}

fn commands_of_name<'a: 'c, 'b: 'c, 'c>(
    layout_name: &'a str,
    layouts: &'b [LayoutDefinition],
    ancestors: &Vec<usize>,
) -> (commands: Result<Vec<&'c str>, LayoutError>)
    requires
        is_chain(positions(ancestors@), layouts@.len() as int),
    ensures
        match flatten_name(layouts@, layout_name@, positions(ancestors@)) {
            Ok(expected) => commands matches Ok(list) && texts(list@) == expected,
            Err(name) => commands matches Err(LayoutError::InheritanceCycle { layout: cyclic })
                && cyclic@ == name,
        },
    decreases layouts@.len() - ancestors@.len(), 0int, 0int,
{
    match layout_position(layout_name, layouts) {
        Some(i) => {
            if on_chain(ancestors, i) {
                return Err(LayoutError::InheritanceCycle { layout: layout_name.to_owned() });
            }
            proof {
                chain_is_short(positions(ancestors@), layouts@.len() as int, i as int);
            }
            let mut longer = ancestors.clone();
            longer.push(i);
            assert(positions(longer@) =~= positions(ancestors@).push(i as int));
            commands_below(&layouts[i], layouts, &longer)
        },
        None => {
            let none: Vec<&'c str> = Vec::new();
            assert(texts(none@) =~= Seq::<Seq<char>>::empty());
            Ok(none)
        },
    }
}

/// The names of `layouts`, in order.
pub fn get_layout_names(layouts: &[LayoutDefinition]) -> (names: Vec<String>)
    ensures
        names@.len() == layouts@.len(),
        forall|i: int| 0 <= i < names@.len() ==> (#[trigger] names@[i])@ == layouts@[i].name@,
{
    let mut names: Vec<String> = Vec::new();
    let mut i: usize = 0;
    while i < layouts.len()
        invariant
            i <= layouts.len(),
            names@.len() == i,
            forall|j: int| 0 <= j < i ==> (#[trigger] names@[j])@ == layouts@[j].name@,
        decreases layouts.len() - i,
    {
        names.push(layouts[i].name.clone());
        i += 1;
    }
    names
}

} // verus!
