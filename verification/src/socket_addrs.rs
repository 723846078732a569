use vstd::prelude::*;

verus! {

/// An IP address: four octets, or eight 16-bit segments.
#[derive(Clone, Copy, Debug, PartialEq, Eq)]
pub enum Ip {
    V4([u8; 4]),
    V6([u16; 8]),
}

/// A socket address: an IPv4 address and a port, or an IPv6 address, a port, a flow
/// label and a scope id.
#[derive(Clone, Copy, Debug, PartialEq, Eq)]
pub enum Addr {
    V4([u8; 4], u16),
    V6([u16; 8], u16, u32, u32),
}

/// Socket addresses in any of the forms a listener can be bound to: one address, given
/// whole or by its parts, or a list of such forms.
#[derive(Debug)]
pub enum SocketAddrs {
    FromAddr(Addr),
    FromAddrV4(([u8; 4], u16)),
    FromAddrV6(([u16; 8], u16, u32, u32)),
    FromIpPort((Ip, u16)),
    FromIpV4Port(([u8; 4], u16)),
    FromIpV6Port(([u16; 8], u16)),
    List(Vec<SocketAddrs>),
}

impl SocketAddrs {
    /// The addresses this form stands for, in order: each single form stands for one
    /// address (an IPv6 address given with a port only has flow label and scope id 0);
    /// a list stands for the addresses of its items, one item after the other.
    pub open spec fn flattened(self) -> Seq<Addr>
        decreases self, 0nat,
    {
        match self {
            SocketAddrs::FromAddr(a) => seq![a],
            SocketAddrs::FromAddrV4((ip, port)) => seq![Addr::V4(ip, port)],
            SocketAddrs::FromAddrV6((ip, port, flow, scope)) => seq![Addr::V6(ip, port, flow, scope)],
            SocketAddrs::FromIpPort((Ip::V4(ip), port)) => seq![Addr::V4(ip, port)],
            SocketAddrs::FromIpPort((Ip::V6(ip), port)) => seq![Addr::V6(ip, port, 0, 0)],
            SocketAddrs::FromIpV4Port((ip, port)) => seq![Addr::V4(ip, port)],
            SocketAddrs::FromIpV6Port((ip, port)) => seq![Addr::V6(ip, port, 0, 0)],
            SocketAddrs::List(items) => flattened_items(items@, items@.len()),
        }
    }
}

/// The addresses of the first `n` items, one item after the other.
pub open spec fn flattened_items(items: Seq<SocketAddrs>, n: nat) -> Seq<Addr>
    decreases items, n,
{
    if n == 0 || n > items.len() {
        Seq::empty()
    } else {
        flattened_items(items, (n - 1) as nat) + items[n - 1].flattened()
    }
}

impl SocketAddrs {
    /// The addresses this form stands for, in order.
    pub fn to_vec(self) -> (addrs: Vec<Addr>)
        ensures
            addrs@ == self.flattened(),
    {
        self.addresses()
    }

    /// The addresses this form stands for, in order, leaving the form in place.
    pub fn addresses(&self) -> (addrs: Vec<Addr>)
        ensures
            addrs@ == self.flattened(),
        decreases self,
    {
        let mut result: Vec<Addr> = Vec::new();
        match self {
            SocketAddrs::FromAddr(a) => result.push(*a),
            SocketAddrs::FromAddrV4((ip, port)) => result.push(Addr::V4(*ip, *port)),
            SocketAddrs::FromAddrV6((ip, port, flow, scope)) => result.push(
                Addr::V6(*ip, *port, *flow, *scope),
            ),
            SocketAddrs::FromIpPort((Ip::V4(ip), port)) => result.push(Addr::V4(*ip, *port)),
            SocketAddrs::FromIpPort((Ip::V6(ip), port)) => result.push(Addr::V6(*ip, *port, 0, 0)),
            SocketAddrs::FromIpV4Port((ip, port)) => result.push(Addr::V4(*ip, *port)),
            SocketAddrs::FromIpV6Port((ip, port)) => result.push(Addr::V6(*ip, *port, 0, 0)),
            SocketAddrs::List(l) => {
                let mut i: usize = 0;
                while i < l.len()
                    invariant
                        *self == SocketAddrs::List(*l),
                        i <= l@.len(),
                        result@ == flattened_items(l@, i as nat),
                    decreases l@.len() - i,
                {
                    assert(decreases_to!(*self => (*self)->List_0));
                    assert((*self)->List_0 == *l);
                    assert(decreases_to!(*l => l@));
                    assert(decreases_to!(l@ => l@[i as int]));
                    assert(decreases_to!(*self => l@[i as int]));
                    let mut part = l[i].addresses();
                    result.append(&mut part);
                    i += 1;
                    assert(result@ =~= flattened_items(l@, i as nat));
                }
            },
        }
        result
    }

    /// The form for the addresses a name resolved to: none gives an empty list, one gives
    /// that address, more give the list of them, in order.
    pub fn from_resolved(addrs: Vec<Addr>) -> (form: Self)
        ensures
            addrs@.len() == 0 ==> (form matches SocketAddrs::List(l) && l@.len() == 0),
            addrs@.len() == 1 ==> form == SocketAddrs::FromAddr(addrs@[0]),
            addrs@.len() >= 2 ==> (form matches SocketAddrs::List(l) && l@.len() == addrs@.len()
                && forall|i: int|
                0 <= i < addrs@.len() ==> l@[i] == SocketAddrs::FromAddr(#[trigger] addrs@[i])),
            form.flattened() == addrs@,
    {
        if addrs.len() == 0 {
            let form = SocketAddrs::List(Vec::new());
            assert(form.flattened() =~= addrs@);
            form
        } else if addrs.len() == 1 {
            let form = SocketAddrs::FromAddr(addrs[0]);
            assert(form.flattened() =~= addrs@);
            form
        } else {
            let mut items: Vec<SocketAddrs> = Vec::new();
            let mut i: usize = 0;
            while i < addrs.len()
                invariant
                    i <= addrs.len(),
                    items@.len() == i,
                    forall|j: int| 0 <= j < i ==> items@[j] == SocketAddrs::FromAddr(#[trigger] addrs@[j]),
                    flattened_items(items@, i as nat) == addrs@.subrange(0, i as int),
                decreases addrs.len() - i,
            {
                let ghost before = items@;
                items.push(SocketAddrs::FromAddr(addrs[i]));
                proof {
                    lemma_flattened_items_prefix(before, items@, i as nat);
                }
                assert(addrs@.subrange(0, i + 1) =~= addrs@.subrange(0, i as int).push(addrs@[i as int]));
                assert(items@[i as int].flattened() =~= seq![addrs@[i as int]]);
                i += 1;
            }
            assert(addrs@.subrange(0, addrs@.len() as int) =~= addrs@);
            SocketAddrs::List(items)
        }
    }
}

/// The addresses of the first `n` items depend on those items alone.
proof fn lemma_flattened_items_prefix(a: Seq<SocketAddrs>, b: Seq<SocketAddrs>, n: nat)
    requires
        n <= a.len(),
        n <= b.len(),
        forall|j: int| 0 <= j < n ==> a[j] == b[j],
    ensures
        flattened_items(a, n) == flattened_items(b, n),
    decreases n,
{
    if n > 0 {
        lemma_flattened_items_prefix(a, b, (n - 1) as nat);
    }
}

/// Each single form stands for exactly the one address it was given, its octets or
/// segments in the order given: an address as is, the parts of an IPv4 address and port
/// as that address, and an IPv6 address given with a port alone with flow label and
/// scope id 0.
pub proof fn lemma_single_forms(
    a: Addr,
    ip4: [u8; 4],
    ip6: [u16; 8],
    port: u16,
    flow: u32,
    scope: u32,
)
    ensures
        SocketAddrs::FromAddr(a).flattened() == seq![a],
        SocketAddrs::FromAddrV4((ip4, port)).flattened() == seq![Addr::V4(ip4, port)],
        SocketAddrs::FromAddrV6((ip6, port, flow, scope)).flattened() == seq![
            Addr::V6(ip6, port, flow, scope),
        ],
        SocketAddrs::FromIpPort((Ip::V4(ip4), port)).flattened() == seq![Addr::V4(ip4, port)],
        SocketAddrs::FromIpPort((Ip::V6(ip6), port)).flattened() == seq![Addr::V6(ip6, port, 0, 0)],
        SocketAddrs::FromIpV4Port((ip4, port)).flattened() == seq![Addr::V4(ip4, port)],
        SocketAddrs::FromIpV6Port((ip6, port)).flattened() == seq![Addr::V6(ip6, port, 0, 0)],
        SocketAddrs::FromAddrV4((ip4, port)).flattened().len() == 1,
        SocketAddrs::FromAddrV4((ip4, port)).flattened()[0] matches Addr::V4(octets, p) && p == port
            && octets[0] == ip4[0] && octets[1] == ip4[1] && octets[2] == ip4[2] && octets[3] == ip4[3],
{
}

/// A list stands for the addresses of its items one after the other: adding an item at the
/// end adds that item's addresses at the end.
pub proof fn lemma_list_push(items: Vec<SocketAddrs>, longer: Vec<SocketAddrs>, item: SocketAddrs)
    requires
        longer@ == items@.push(item),
    ensures
        SocketAddrs::List(longer).flattened() == SocketAddrs::List(items).flattened()
            + item.flattened(),
{
    lemma_flattened_items_prefix(items@, longer@, items@.len());
}

} // verus!
