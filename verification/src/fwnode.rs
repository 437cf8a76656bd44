//! Firmware nodes: named properties with integer or string data, and child
//! nodes. A node is plain data that the caller fills in from the platform's
//! firmware description; the typed reads with their defaults work on it.

use vstd::prelude::*;
use crate::arrayvec::ArrayVec;
use crate::error::Error;

verus! {

/// The data of a property.
#[derive(Debug, Clone)]
pub enum PropertyValue {
    /// No data: the property is a flag that is set by being present.
    Empty,
    /// An array of integers.
    Integers(Vec<u32>),
    /// A list of strings.
    Strings(Vec<String>),
}

impl PropertyValue {
    /// The integers that can be read from a present property, or why none can.
    pub open spec fn integers(self) -> Result<Seq<u32>, Error> {
        match self {
            PropertyValue::Integers(v) => Ok(v@),
            _ => Err(Error::PropertyNoData),
        }
    }

    /// The strings that can be read from a present property, or why none can.
    pub open spec fn strings(self) -> Result<Seq<String>, Error> {
        match self {
            PropertyValue::Strings(v) => Ok(v@),
            _ => Err(Error::PropertyNoData),
        }
    }
}

/// A named property of a node.
#[derive(Debug, Clone)]
pub struct Property {
    /// The name by which the property is found.
    pub name: String,
    /// The data of the property.
    pub value: PropertyValue,
}

/// Most arguments that a reference to a node can carry.
pub const NR_FWNODE_REFERENCE_ARGS: usize = 8;

/// How the number of arguments of a reference is known.
#[derive(Debug, Clone, Copy)]
pub enum NArgs<'a> {
    /// The property of this name in the node referred to tells the number.
    Prop(&'a str),
    /// The number is this.
    N(u32),
}

impl<'a> NArgs<'a> {
    /// Returns what the platform is asked with: the name of the property
    /// that tells the number of arguments, if there is one, and else the
    /// number itself; the number is 0 beside a name.
    pub fn parts(self) -> (r: (Option<&'a str>, u32))
        ensures
            match self {
                NArgs::Prop(name) => r.0 == Some(name) && r.1 == 0,
                NArgs::N(n) => r.0 is None && r.1 == n,
            },
    {
        match self {
            NArgs::Prop(name) => (Some(name), 0),
            NArgs::N(n) => (None, n),
        }
    }
}

/// Collects the arguments of a reference that the platform has resolved:
/// the first `nargs` of `args`. More arguments than a reference can carry
/// are an invalid argument.
pub fn reference_args(args: &[u64; NR_FWNODE_REFERENCE_ARGS], nargs: u32) -> (r: Result<
    ArrayVec<NR_FWNODE_REFERENCE_ARGS, u64>,
    Error,
>)
    ensures
        nargs <= NR_FWNODE_REFERENCE_ARGS ==> r is Ok && r->Ok_0@ == args@.subrange(0, nargs as int),
        nargs > NR_FWNODE_REFERENCE_ARGS ==> r is Err && r->Err_0 == Error::InvalidArgument,
{
    if nargs as usize > NR_FWNODE_REFERENCE_ARGS {
        return Err(Error::InvalidArgument);
    }
    let mut out: ArrayVec<NR_FWNODE_REFERENCE_ARGS, u64> = ArrayVec::new();
    let mut i: usize = 0;
    while i < nargs as usize
        invariant
            i <= nargs <= NR_FWNODE_REFERENCE_ARGS,
            out@ == args@.subrange(0, i as int),
        decreases nargs - i,
    {
        out.push(args[i]);
        assert(out@ =~= args@.subrange(0, i + 1));
        i += 1;
    }
    Ok(out)
}

/// A firmware node with its properties and child nodes.
#[derive(Debug)]
pub struct FwNode {
    name: String,
    props: Vec<Property>,
    children: Vec<FwNode>,
}

/// The integers of the property `name`, or why they cannot be read: the
/// property is absent, or it holds no integers.
pub open spec fn integers_of(props: Map<Seq<char>, PropertyValue>, name: Seq<char>) -> Result<
    Seq<u32>,
    Error,
> {
    if props.dom().contains(name) {
        props[name].integers()
    } else {
        Err(Error::PropertyMissing)
    }
}

/// The strings of the property `name`, or why they cannot be read: the
/// property is absent, or it holds no strings.
pub open spec fn strings_of(props: Map<Seq<char>, PropertyValue>, name: Seq<char>) -> Result<
    Seq<String>,
    Error,
> {
    if props.dom().contains(name) {
        props[name].strings()
    } else {
        Err(Error::PropertyMissing)
    }
}

/// The first `len` integers of the property `name`. A property with fewer
/// integers is too short; one with more is read up to `len`.
pub open spec fn integer_array_of(
    props: Map<Seq<char>, PropertyValue>,
    name: Seq<char>,
    len: nat,
) -> Result<Seq<u32>, Error> {
    match integers_of(props, name) {
        Ok(v) => if v.len() >= len {
            Ok(v.subrange(0, len as int))
        } else {
            Err(Error::PropertyTooShort)
        },
        Err(e) => Err(e),
    }
}

/// The result of reading one integer with a fallback: any failure of the
/// read gives the default, and without a default the failure itself.
pub open spec fn integer_or(
    props: Map<Seq<char>, PropertyValue>,
    name: Seq<char>,
    default: Option<u32>,
) -> Result<u32, Error> {
    match integer_array_of(props, name, 1) {
        Ok(v) => Ok(v[0]),
        Err(e) => match default {
            Some(d) => Ok(d),
            None => Err(e),
        },
    }
}

/// Whether `i` is the first position of `s` that holds `needle`.
pub open spec fn is_first_match(s: Seq<String>, needle: Seq<char>, i: int) -> bool {
    &&& 0 <= i < s.len()
    &&& s[i]@ == needle
    &&& forall|j: int| 0 <= j < i ==> (#[trigger] s[j])@ != needle
}

/// Whether `i` is the first position of `props` whose property is called `name`.
pub open spec fn is_first_property(props: Seq<Property>, name: Seq<char>, i: int) -> bool {
    &&& 0 <= i < props.len()
    &&& props[i].name@ == name
    &&& forall|j: int| 0 <= j < i ==> (#[trigger] props[j]).name@ != name
}

/// Whether `i` is the first position of `nodes` whose node is called `name`.
pub open spec fn is_first_named(nodes: Seq<FwNode>, name: Seq<char>, i: int) -> bool {
    &&& 0 <= i < nodes.len()
    &&& nodes[i].name() == name
    &&& forall|j: int| 0 <= j < i ==> (#[trigger] nodes[j]).name() != name
}

impl FwNode {
    /// The name of the node.
    pub closed spec fn name(&self) -> Seq<char> {
        self.name@
    }

    /// The properties of the node by name.
    pub closed spec fn properties(&self) -> Map<Seq<char>, PropertyValue> {
        Map::new(
            |n: Seq<char>| exists|i: int| is_first_property(self.props@, n, i),
            |n: Seq<char>| self.props@[choose|i: int| is_first_property(self.props@, n, i)].value,
        )
    }

    /// The child nodes in the order in which they were added.
    pub closed spec fn child_nodes(&self) -> Seq<FwNode> {
        self.children@
    }

    /// Creates a node called `name` without properties or children.
    pub fn new(name: &str) -> (r: FwNode)
        ensures
            r.name() == name@,
            r.properties() == Map::<Seq<char>, PropertyValue>::empty(),
            r.child_nodes() == Seq::<FwNode>::empty(),
    {
        let r = FwNode { name: name.to_owned(), props: Vec::new(), children: Vec::new() };
        assert(r.properties() =~= Map::<Seq<char>, PropertyValue>::empty());
        r
    }

    fn find(&self, name: &str) -> (r: Option<usize>)
        ensures
            match r {
                Some(i) => is_first_property(self.props@, name@, i as int)
                    && self.properties().dom().contains(name@) && self.properties()[name@]
                    == self.props@[i as int].value,
                None => !self.properties().dom().contains(name@) && forall|j: int|
                    0 <= j < self.props@.len() ==> (#[trigger] self.props@[j]).name@ != name@,
            },
    {
        let key = name.to_owned();
        let mut i: usize = 0;
        while i < self.props.len()
            invariant
                i <= self.props@.len(),
                key@ == name@,
                forall|j: int| 0 <= j < i ==> (#[trigger] self.props@[j]).name@ != name@,
            decreases self.props@.len() - i,
        {
            if self.props[i].name == key {
                proof {
                    lemma_first_property_unique(self.props@, name@, i as int);
                }
                return Some(i);
            }
            i += 1;
        }
        proof {
            assert forall|k: int| !is_first_property(self.props@, name@, k) by {
                if 0 <= k < self.props@.len() {
                    assert(self.props@[k].name@ != name@);
                }
            }
        }
        None
    }

    /// Sets the property `name` to `value`, replacing the value that the
    /// node had under that name.
    pub fn set_property(&mut self, name: &str, value: PropertyValue)
        ensures
            final(self).name() == old(self).name(),
            final(self).child_nodes() == old(self).child_nodes(),
            final(self).properties() == old(self).properties().insert(name@, value),
    {
        let ghost before = self.props@;
        let ghost before_map = self.properties();
        match self.find(name) {
            Some(i) => {
                let key = name.to_owned();
                self.props[i] = Property { name: key, value };
                proof {
                    lemma_properties_after_set(before, self.props@, i as int, name@);
                }
            },
            None => {
                self.props.push(Property { name: name.to_owned(), value });
                proof {
                    lemma_properties_after_set(before, self.props@, before.len() as int, name@);
                }
            },
        }
        proof {
            let want = before_map.insert(name@, value);
            let got = self.properties();
            assert forall|n: Seq<char>| #[trigger] got.dom().contains(n) <==> want.dom().contains(
                n,
            ) by {
                if n != name@ {
                    if got.dom().contains(n) {
                        let a = choose|a: int| is_first_property(self.props@, n, a);
                        assert(is_first_property(before, n, a));
                    }
                    if want.dom().contains(n) {
                        let b = choose|b: int| is_first_property(before, n, b);
                        assert(is_first_property(self.props@, n, b));
                    }
                }
            }
            assert forall|n: Seq<char>| got.dom().contains(n) implies #[trigger] got[n]
                == want[n] by {
                if n != name@ {
                    let b = choose|b: int| is_first_property(before, n, b);
                    assert(is_first_property(self.props@, n, b));
                    lemma_first_property_unique(self.props@, n, b);
                    lemma_first_property_unique(before, n, b);
                }
            }
            assert(self.properties() =~= want);
        }
    }

    /// Returns whether the node has a property called `name`.
    pub fn property_present(&self, name: &str) -> (r: bool)
        ensures
            r == self.properties().dom().contains(name@),
    {
        self.find(name).is_some()
    }

    /// Returns the flag `name`: true exactly if the property is present,
    /// whatever data it holds.
    pub fn property_read_bool(&self, name: &str) -> (r: bool)
        ensures
            r == self.properties().dom().contains(name@),
    {
        self.find(name).is_some()
    }

    fn integers(&self, name: &str) -> (r: Result<&Vec<u32>, Error>)
        ensures
            match integers_of(self.properties(), name@) {
                Ok(v) => r is Ok && r->Ok_0@ == v,
                Err(e) => r == Err::<&Vec<u32>, Error>(e),
            },
    {
        match self.find(name) {
            Some(i) => match &self.props[i].value {
                PropertyValue::Integers(v) => Ok(v),
                _ => Err(Error::PropertyNoData),
            },
            None => Err(Error::PropertyMissing),
        }
    }

    fn strings(&self, name: &str) -> (r: Result<&Vec<String>, Error>)
        ensures
            match strings_of(self.properties(), name@) {
                Ok(v) => r is Ok && r->Ok_0@ == v,
                Err(e) => r == Err::<&Vec<String>, Error>(e),
            },
    {
        match self.find(name) {
            Some(i) => match &self.props[i].value {
                PropertyValue::Strings(v) => Ok(v),
                _ => Err(Error::PropertyNoData),
            },
            None => Err(Error::PropertyMissing),
        }
    }

    /// Reads the first string of the property `name`.
    pub fn property_read_string(&self, name: &str) -> (r: Result<String, Error>)
        ensures
            match strings_of(self.properties(), name@) {
                Ok(v) => if v.len() > 0 {
                    r is Ok && r->Ok_0@ == v[0]@
                } else {
                    r == Err::<String, Error>(Error::PropertyNoData)
                },
                Err(e) => r == Err::<String, Error>(e),
            },
    {
        let list = self.strings(name)?;
        if list.len() == 0 {
            return Err(Error::PropertyNoData);
        }
        Ok(list[0].clone())
    }

    /// Returns the first position at which the string list `name` holds
    /// `match_str`. A list without that string has no data to give.
    pub fn property_match_string(&self, name: &str, match_str: &str) -> (r: Result<usize, Error>)
        ensures
            match strings_of(self.properties(), name@) {
                Ok(v) => match r {
                    Ok(i) => is_first_match(v, match_str@, i as int),
                    Err(e) => e == Error::PropertyNoData && forall|j: int|
                        0 <= j < v.len() ==> (#[trigger] v[j])@ != match_str@,
                },
                Err(e) => r == Err::<usize, Error>(e),
            },
    {
        let list = self.strings(name)?;
        let key = match_str.to_owned();
        let mut i: usize = 0;
        while i < list.len()
            invariant
                i <= list@.len(),
                key@ == match_str@,
                strings_of(self.properties(), name@) == Ok::<Seq<String>, Error>(list@),
                forall|j: int| 0 <= j < i ==> (#[trigger] list@[j])@ != match_str@,
            decreases list@.len() - i,
        {
            if list[i] == key {
                return Ok(i);
            }
            i += 1;
        }
        Err(Error::PropertyNoData)
    }

    /// Reads the integer property `name`: its first element if it has one,
    /// else `default`, else the reason why it cannot be read.
    pub fn property_read(&self, name: &str, default: Option<u32>) -> (r: Result<u32, Error>)
        ensures
            r == integer_or(self.properties(), name@, default),
            default is Some ==> r is Ok,
    {
        let found = match self.integers(name) {
            Ok(v) => if v.len() >= 1 {
                Ok(v[0])
            } else {
                Err(Error::PropertyTooShort)
            },
            Err(e) => Err(e),
        };
        match found {
            Ok(x) => Ok(x),
            Err(e) => match default {
                Some(d) => Ok(d),
                None => Err(e),
            },
        }
    }

    /// Reads the first `N` integers of the property `name`. Where that
    /// fails, the result is `default`, or the failure if there is none.
    pub fn property_read_array<const N: usize>(&self, name: &str, default: Option<[u32; N]>) -> (r:
        Result<[u32; N], Error>)
        ensures
            match integer_array_of(self.properties(), name@, N as nat) {
                Ok(v) => r is Ok && r->Ok_0@ == v,
                Err(e) => match default {
                    Some(d) => r == Ok::<[u32; N], Error>(d),
                    None => r == Err::<[u32; N], Error>(e),
                },
            },
    {
        let found: Result<[u32; N], Error> = match self.integers(name) {
            Ok(v) => if v.len() >= N {
                let mut out = [0u32;N];
                let mut i: usize = 0;
                while i < N
                    invariant
                        i <= N,
                        N <= v@.len(),
                        forall|j: int| 0 <= j < i ==> out@[j] == v@[j],
                    decreases N - i,
                {
                    out[i] = v[i];
                    i += 1;
                }
                assert(out@ =~= v@.subrange(0, N as int));
                Ok(out)
            } else {
                Err(Error::PropertyTooShort)
            },
            Err(e) => Err(e),
        };
        match found {
            Ok(a) => Ok(a),
            Err(e) => match default {
                Some(d) => Ok(d),
                None => Err(e),
            },
        }
    }

    /// Reads the first `len` integers of the property `name` into a vector.
    pub fn property_read_array_vec(&self, name: &str, len: usize) -> (r: Result<Vec<u32>, Error>)
        ensures
            match integer_array_of(self.properties(), name@, len as nat) {
                Ok(v) => r is Ok && r->Ok_0@ == v,
                Err(e) => r == Err::<Vec<u32>, Error>(e),
            },
    {
        let v = self.integers(name)?;
        if v.len() < len {
            return Err(Error::PropertyTooShort);
        }
        let mut out: Vec<u32> = Vec::new();
        let mut i: usize = 0;
        while i < len
            invariant
                i <= len <= v@.len(),
                out@ == v@.subrange(0, i as int),
            decreases len - i,
        {
            out.push(v[i]);
            assert(out@ =~= v@.subrange(0, i + 1));
            i += 1;
        }
        Ok(out)
    }

    /// Returns the number of integers that the property `name` holds.
    pub fn property_count_elem(&self, name: &str) -> (r: Result<usize, Error>)
        ensures
            match integers_of(self.properties(), name@) {
                Ok(v) => r == Ok::<usize, Error>(v.len() as usize),
                Err(e) => r == Err::<usize, Error>(e),
            },
    {
        let v = self.integers(name)?;
        Ok(v.len())
    }

    /// Returns the first child node called `name`, if there is one.
    pub fn get_child_by_name(&self, name: &str) -> (r: Option<&FwNode>)
        ensures
            match r {
                Some(node) => exists|i: int|
                    is_first_named(self.child_nodes(), name@, i) && *node
                        == self.child_nodes()[i],
                None => forall|i: int|
                    0 <= i < self.child_nodes().len() ==> (#[trigger] self.child_nodes()[i]).name()
                        != name@,
            },
    {
        let key = name.to_owned();
        let mut i: usize = 0;
        while i < self.children.len()
            invariant
                i <= self.children@.len(),
                key@ == name@,
                forall|j: int| 0 <= j < i ==> (#[trigger] self.children@[j]).name() != name@,
            decreases self.children@.len() - i,
        {
            if self.children[i].name == key {
                assert(is_first_named(self.child_nodes(), name@, i as int));
                return Some(&self.children[i]);
            }
            i += 1;
        }
        None
    }

    /// Returns the child nodes in the order in which they were added.
    pub fn children(&self) -> (r: &Vec<FwNode>)
        ensures
            r@ == self.child_nodes(),
    {
        &self.children
    }

    /// Adds `child` behind the children that the node has.
    pub fn add_child(&mut self, child: FwNode)
        ensures
            final(self).name() == old(self).name(),
            final(self).properties() == old(self).properties(),
            final(self).child_nodes() == old(self).child_nodes().push(child),
    {
        self.children.push(child);
    }
}

/// Where a name is found first, it is found at one position only.
proof fn lemma_first_property_unique(props: Seq<Property>, name: Seq<char>, i: int)
    requires
        is_first_property(props, name, i),
    ensures
        (choose|k: int| is_first_property(props, name, k)) == i,
{
    let k = choose|k: int| is_first_property(props, name, k);
    if k < i {
        assert(props[k].name@ != name);
    } else if i < k {
        assert(props[i].name@ != name);
    }
}

/// Setting `name` at position `k`, which is either its first position or
/// the new end of the list, makes `k` its first position and moves no other
/// name.
proof fn lemma_properties_after_set(
    before: Seq<Property>,
    after: Seq<Property>,
    k: int,
    name: Seq<char>,
)
    requires
        0 <= k < after.len(),
        after[k].name@ == name,
        is_first_property(before, name, k) || (k == before.len() && forall|j: int|
            0 <= j < before.len() ==> (#[trigger] before[j]).name@ != name),
        after.len() == before.len() || (k == before.len() && after.len() == before.len() + 1),
        forall|j: int| 0 <= j < after.len() && j != k ==> #[trigger] after[j] == before[j],
    ensures
        is_first_property(after, name, k),
        (choose|i: int| is_first_property(after, name, i)) == k,
        forall|n: Seq<char>, i: int|
            n != name ==> (#[trigger] is_first_property(after, n, i) <==> is_first_property(
                before,
                n,
                i,
            )),
{
    assert(is_first_property(after, name, k)) by {
        assert forall|j: int| 0 <= j < k implies (#[trigger] after[j]).name@ != name by {
            assert(after[j] == before[j]);
        }
    }
    lemma_first_property_unique(after, name, k);
    assert forall|n: Seq<char>, i: int| n != name implies (#[trigger] is_first_property(
        after,
        n,
        i,
    ) <==> is_first_property(before, n, i)) by {
        if is_first_property(after, n, i) {
            assert(i != k);
            assert(after[i] == before[i]);
            assert forall|j: int| 0 <= j < i implies (#[trigger] before[j]).name@ != n by {
                if j != k {
                    assert(after[j] == before[j]);
                } else {
                    if k < before.len() {
                        assert(before[k].name@ == name);
                    }
                }
            }
        }
        if is_first_property(before, n, i) {
            assert(i != k) by {
                if i == k {
                    assert(before[k].name@ == name || k == before.len());
                }
            }
            assert(after[i] == before[i]);
            assert forall|j: int| 0 <= j < i implies (#[trigger] after[j]).name@ != n by {
                if j != k {
                    assert(after[j] == before[j]);
                }
            }
        }
    }
}

} // verus!
