use vstd::prelude::*;
use vstd::string::StringExecFns;
use crate::text::{decimal, push_decimal, push_str, string_of};

verus! {

/// A node discovered on the local network.
pub struct P2pNode {
    pub name: String,
    pub ip: String,
    pub port: u16,
    pub node_name: String,
    pub platform: String,
}

/// Whether a node of that name is in the list.
pub open spec fn has_name(list: Seq<P2pNode>, name: Seq<char>) -> bool {
    exists|i: int| 0 <= i < list.len() && (#[trigger] list[i]).name@ == name
}

/// No two nodes share a name.
pub open spec fn names_distinct(list: Seq<P2pNode>) -> bool {
    forall|i: int, j: int| 0 <= i < j < list.len() ==> (#[trigger] list[i]).name@ != (#[trigger] list[j]).name@
}

/// Record a discovered node unless one of the same name is already known.
pub fn add_unique_node(list: &mut Vec<P2pNode>, node: P2pNode)
    ensures
        has_name(old(list)@, node.name@) ==> final(list)@ == old(list)@,
        !has_name(old(list)@, node.name@) ==> final(list)@ == old(list)@.push(node),
{
    let mut i: usize = 0;
    while i < list.len()
        invariant
            0 <= i <= list.len(),
            forall|j: int| 0 <= j < i ==> (#[trigger] list@[j]).name@ != node.name@,
        decreases list.len() - i,
    {
        if list[i].name == node.name {
            return;
        }
        i = i + 1;
    }
    list.push(node);
}

/// Adding discovered nodes keeps their names distinct.
pub proof fn law_discovery_names_distinct(list: Seq<P2pNode>, node: P2pNode)
    requires
        names_distinct(list),
    ensures
        names_distinct(if has_name(list, node.name@) { list } else { list.push(node) }),
{
    if !has_name(list, node.name@) {
        let t = list.push(node);
        assert forall|i: int, j: int| 0 <= i < j < t.len() implies (#[trigger] t[i]).name@ != (#[trigger] t[j]).name@ by {
            if j == list.len() {
                assert(t[i] == list[i]);
            } else {
                assert(t[i] == list[i] && t[j] == list[j]);
            }
        }
    }
}

/// The nodes whose platform is `android`, in discovery order.
pub open spec fn android_filter(list: Seq<P2pNode>) -> Seq<P2pNode> {
    list.filter(|n: P2pNode| n.platform@ == "android"@)
}

fn clone_node(n: &P2pNode) -> (c: P2pNode)
    ensures
        c == *n,
{
    P2pNode {
        name: n.name.clone(),
        ip: n.ip.clone(),
        port: n.port,
        node_name: n.node_name.clone(),
        platform: n.platform.clone(),
    }
}

/// Keep the Android nodes, in discovery order.
pub fn android_nodes(nodes: &Vec<P2pNode>) -> (r: Vec<P2pNode>)
    ensures
        r@ == android_filter(nodes@),
{
    let android = String::from_str("android");
    let mut out: Vec<P2pNode> = Vec::new();
    let mut i: usize = 0;
    while i < nodes.len()
        invariant
            0 <= i <= nodes.len(),
            android@ == "android"@,
            out@ == android_filter(nodes@.subrange(0, i as int)),
        decreases nodes.len() - i,
    {
        proof {
            assert(nodes@.subrange(0, i + 1).drop_last() =~= nodes@.subrange(0, i as int));
            reveal(Seq::filter);
        }
        if nodes[i].platform == android {
            out.push(clone_node(&nodes[i]));
        }
        i = i + 1;
    }
    assert(nodes@.subrange(0, nodes.len() as int) == nodes@);
    out
}

/// A node reached directly at `ip:port`, assumed to be an Android agent.
pub fn direct_node(ip: &str, port: u16) -> (n: P2pNode)
    ensures
        n.name@ == ip@ + ":"@ + decimal(port as nat),
        n.ip@ == ip@,
        n.port == port,
        n.node_name@ == "Unknown"@,
        n.platform@ == "android"@,
{
    let mut name: Vec<char> = Vec::new();
    push_str(&mut name, ip);
    push_str(&mut name, ":");
    push_decimal(&mut name, port as u64);
    P2pNode {
        name: string_of(&name),
        ip: String::from_str(ip),
        port,
        node_name: String::from_str("Unknown"),
        platform: String::from_str("android"),
    }
}


/// A node as announced over mDNS: its full service name, its first IPv4
/// address (empty without one), port, and the `node_name` and `platform`
/// properties (`unknown` when absent).
pub fn discovered_node(fullname: &str, ip: Option<&str>, port: u16, node_name: Option<&str>, platform: Option<&str>) -> (n: P2pNode)
    ensures
        n.name@ == fullname@,
        n.ip@ == match ip { Some(a) => a@, None => Seq::<char>::empty() },
        n.port == port,
        n.node_name@ == match node_name { Some(a) => a@, None => "unknown"@ },
        n.platform@ == match platform { Some(a) => a@, None => "unknown"@ },
{
    P2pNode {
        name: String::from_str(fullname),
        ip: match ip { Some(a) => String::from_str(a), None => String::new() },
        port,
        node_name: String::from_str(match node_name { Some(a) => a, None => "unknown" }),
        platform: String::from_str(match platform { Some(a) => a, None => "unknown" }),
    }
}

/// Whether an announced service is an Android agent: its `platform`
/// property is `android`, or its full name mentions `Android` or `android`.
pub fn is_android_service(platform: Option<&str>, fullname: &str) -> (r: bool)
    ensures
        r == ((platform matches Some(p) && p@ == "android"@) || crate::text::contains(fullname@, "Android"@)
            || crate::text::contains(fullname@, "android"@)),
{
    let by_platform = match platform {
        Some(p) => crate::text::chars_eq_str(&crate::text::chars_of(p), "android"),
        None => false,
    };
    let v = crate::text::chars_of(fullname);
    by_platform || crate::text::contains_str(&v, "Android") || crate::text::contains_str(&v, "android")
}

} // verus!
