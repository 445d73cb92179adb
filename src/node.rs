use vstd::prelude::*;
use vstd::string::*;

verus! {

/// The longest node token that is accepted.
pub const MAX_NODE_TOKEN_LEN: usize = 63;

/// A character that may appear in a node token.
pub open spec fn is_node_char(c: char) -> bool {
    ('a' <= c && c <= 'z') || ('A' <= c && c <= 'Z') || ('0' <= c && c <= '9') || c == '_'
}

/// A node token is non-empty, at most `MAX_NODE_TOKEN_LEN` characters long,
/// and made of ASCII letters, digits and underscores.
pub open spec fn valid_node_token(s: Seq<char>) -> bool {
    &&& 0 < s.len() <= MAX_NODE_TOKEN_LEN
    &&& forall|i: int| 0 <= i < s.len() ==> #[trigger] is_node_char(s[i])
}

/// The identity of a worker node: a validated token.
#[derive(Clone, Debug)]
pub struct NodeId {
    token: String,
}

impl View for NodeId {
    type V = Seq<char>;

    closed spec fn view(&self) -> Seq<char> {
        self.token@
    }
}

fn check_node_char(c: char) -> (r: bool)
    ensures
        r == is_node_char(c),
{
    ('a' <= c && c <= 'z') || ('A' <= c && c <= 'Z') || ('0' <= c && c <= '9') || c == '_'
}

impl NodeId {
    /// Whether `s` is a well-formed node token.
    pub fn is_valid(s: &str) -> (r: bool)
        ensures
            r == valid_node_token(s@),
    {
        let n = s.unicode_len();
        if n == 0 || n > MAX_NODE_TOKEN_LEN {
            return false;
        }
        let mut i: usize = 0;
        while i < n
            invariant
                n == s@.len(),
                i <= n,
                forall|j: int| 0 <= j < i ==> #[trigger] is_node_char(s@[j]),
            decreases n - i,
        {
            if !check_node_char(s.get_char(i)) {
                return false;
            }
            i = i + 1;
        }
        true
    }

    /// Validates `s` as a node token; a malformed token is rejected.
    pub fn new(s: String) -> (r: Result<NodeId, ()>)
        ensures
            r is Ok <==> valid_node_token(s@),
            r matches Ok(n) ==> n@ == s@,
    {
        if NodeId::is_valid(s.as_str()) {
            Ok(NodeId { token: s })
        } else {
            Err(())
        }
    }

    /// The token of this node.
    pub fn as_str(&self) -> (r: &str)
        ensures
            r@ == self@,
    {
        self.token.as_str()
    }

    /// A copy of this node identity.
    pub fn duplicate(&self) -> (r: NodeId)
        ensures
            r@ == self@,
    {
        NodeId { token: self.token.clone() }
    }

    /// Whether two node identities are the same token.
    pub fn same_as(&self, other: &NodeId) -> (r: bool)
        ensures
            r == (self@ == other@),
    {
        self.token == other.token
    }
}

} // verus!
