//! The plugin's node resource: the table rows and headers it prints for nodes,
//! and the labels left on a node after an uncordon.
use vstd::prelude::*;

use crate::models;
use crate::topology::NodeId;

verus! {

/// Arguments used when getting a node.
#[derive(Debug)]
pub struct GetNodeArgs {
    /// Id of the node
    node_id: NodeId,
    /// Shows the cordon labels associated with the node
    show_cordon_labels: bool,
}

impl GetNodeArgs {
    /// The node id, as a value.
    pub closed spec fn spec_node_id(self) -> NodeId {
        self.node_id
    }

    /// Whether the cordon labels are to be shown, as a value.
    pub closed spec fn spec_show_cordon_labels(self) -> bool {
        self.show_cordon_labels
    }

    /// The arguments to get the node `node_id`.
    pub fn new(node_id: NodeId, show_cordon_labels: bool) -> (r: Self)
        ensures
            r.spec_node_id() == node_id,
            r.spec_show_cordon_labels() == show_cordon_labels,
    {
        GetNodeArgs { node_id, show_cordon_labels }
    }

    /// Return the node ID.
    pub fn node_id(&self) -> (r: NodeId)
        ensures
            r == self.spec_node_id(),
    {
        self.node_id.clone()
    }

    /// Return whether or not we should show the cordon labels.
    pub fn show_cordon_labels(&self) -> (r: bool)
        ensures
            r == self.spec_show_cordon_labels(),
    {
        self.show_cordon_labels
    }
}

/// Nodes resource.
#[derive(Debug)]
pub struct Nodes {}

/// Node resource.
#[derive(Debug)]
pub struct Node {}

/// The strings of `list` with `sep` between each two.
pub open spec fn join(list: Seq<Seq<char>>, sep: Seq<char>) -> Seq<char>
    decreases list.len(),
{
    if list.len() == 0 {
        Seq::empty()
    } else if list.len() == 1 {
        list[0]
    } else {
        join(list.drop_last(), sep) + sep + list.last()
    }
}

/// Joins the strings of `list` with `sep` between each two.
pub fn join_strings(list: &Vec<String>, sep: &str) -> (r: String)
    ensures
        r@ == join(list.deep_view(), sep@),
{
    let ghost view = list.deep_view();
    let mut out = String::new();
    let mut i: usize = 0;
    while i < list.len()
        invariant
            i <= list@.len(),
            view == list.deep_view(),
            out@ == join(view.take(i as int), sep@),
        decreases list@.len() - i,
    {
        assert(view.take(i + 1).drop_last() =~= view.take(i as int));
        if i != 0 {
            out.append(sep);
        } else {
            assert(view.take(0) =~= Seq::<Seq<char>>::empty());
        }
        out.append(list[i].as_str());
        i = i + 1;
    }
    assert(view.take(list@.len() as int) =~= view);
    out
}

/// Joining two lists gives their joins with one separator between, where both
/// joins are non-empty.
pub proof fn lemma_join_concat(a: Seq<Seq<char>>, b: Seq<Seq<char>>, sep: Seq<char>)
    ensures
        b.len() == 0 ==> join(a + b, sep) == join(a, sep),
        a.len() == 0 ==> join(a + b, sep) == join(b, sep),
        a.len() > 0 && b.len() > 0 ==> join(a + b, sep) == join(a, sep) + sep + join(b, sep),
    decreases b.len(),
{
    if b.len() == 0 {
        assert(a + b =~= a);
    } else if a.len() == 0 {
        assert(a + b =~= b);
    } else if b.len() == 1 {
        assert((a + b).drop_last() =~= a);
        assert((a + b).last() == b[0]);
    } else {
        let b1 = b.drop_last();
        lemma_join_concat(a, b1, sep);
        assert((a + b).drop_last() =~= a + b1);
        assert((a + b).last() == b.last());
        assert(join(b, sep) == join(b1, sep) + sep + b.last());
        assert(join(a + b, sep) == join(a + b1, sep) + sep + b.last());
        assert(join(a, sep) + sep + join(b1, sep) + sep + b.last() =~= join(a, sep) + sep + (
        join(b1, sep) + sep + b.last()));
    }
}

/// Header of the node table.
pub open spec fn node_headers() -> Seq<Seq<char>> {
    seq!["ID"@, "GRPC ENDPOINT"@, "STATUS"@, "CORDONED"@]
}

/// A boolean as it is displayed.
pub open spec fn bool_text(b: bool) -> Seq<char> {
    if b {
        "true"@
    } else {
        "false"@
    }
}

/// Whether a node has cordon or drain labels.
pub open spec fn node_cordoned(node: models::Node) -> bool {
    match node.spec {
        Some(spec) => !(spec.cordon_labels@.len() == 0 && spec.drain_labels@.len() == 0),
        None => false,
    }
}

/// The cordon labels of a node, none when its specification is unknown.
pub open spec fn cordon_labels(node: models::Node) -> Seq<Seq<char>> {
    match node.spec {
        Some(spec) => spec.cordon_labels.deep_view(),
        None => Seq::empty(),
    }
}

/// The drain labels of a node, none when its specification is unknown.
pub open spec fn drain_labels(node: models::Node) -> Seq<Seq<char>> {
    match node.spec {
        Some(spec) => spec.drain_labels.deep_view(),
        None => Seq::empty(),
    }
}

/// The row of a node: its id, the gRPC endpoint and status of its state (those of
/// its specification and an unknown status when the state is missing), and whether
/// it is cordoned.
pub open spec fn node_row(node: models::Node) -> Seq<Seq<char>> {
    let endpoint = match node.state {
        Some(state) => state.grpc_endpoint@,
        None => match node.spec {
            Some(spec) => spec.grpc_endpoint@,
            None => Seq::empty(),
        },
    };
    let status = match node.state {
        Some(state) => state.status.spec_text(),
        None => models::NodeStatus::Unknown.spec_text(),
    };
    seq![node.id@, endpoint, status, bool_text(node_cordoned(node))]
}

/// The rows as values.
pub open spec fn rows_view(rows: Vec<Vec<String>>) -> Seq<Seq<Seq<char>>> {
    rows@.map_values(|row: Vec<String>| row.deep_view())
}

/// A boolean as it is displayed.
fn bool_string(b: bool) -> (r: String)
    ensures
        r@ == bool_text(b),
{
    if b {
        String::from_str("true")
    } else {
        String::from_str("false")
    }
}

/// The table rows of a node.
pub fn node_rows(node: &models::Node) -> (r: Vec<Vec<String>>)
    ensures
        rows_view(r) == seq![node_row(*node)],
{
    let (endpoint, cordoned) = match &node.spec {
        Some(spec) => (
            spec.grpc_endpoint.clone(),
            !(spec.cordon_labels.len() == 0 && spec.drain_labels.len() == 0),
        ),
        None => (String::new(), false),
    };
    let (endpoint, status) = match &node.state {
        Some(state) => (state.grpc_endpoint.clone(), state.status.text()),
        None => (endpoint, models::NodeStatus::Unknown.text()),
    };
    let mut row: Vec<String> = Vec::new();
    row.push(node.id.clone());
    row.push(endpoint);
    row.push(status);
    row.push(bool_string(cordoned));
    assert(row.deep_view() =~= node_row(*node));
    let mut rows: Vec<Vec<String>> = Vec::new();
    rows.push(row);
    assert(rows_view(rows)[0] == row.deep_view());
    assert(rows_view(rows) =~= seq![node_row(*node)]);
    rows
}

/// The header row of the node table.
pub fn node_header_row() -> (r: Vec<String>)
    ensures
        r.deep_view() == node_headers(),
{
    let mut header: Vec<String> = Vec::new();
    header.push(String::from_str("ID"));
    header.push(String::from_str("GRPC ENDPOINT"));
    header.push(String::from_str("STATUS"));
    header.push(String::from_str("CORDONED"));
    assert(header.deep_view() =~= node_headers());
    header
}

/// Display format options for a `Node` object.
#[derive(Debug, Clone, Copy, PartialEq, Eq, Structural)]
pub enum NodeDisplayFormat {
    Default,
    CordonLabels,
    Drain,
}

/// The NodeDisply structure is responsible for controlling the display formatting of Node objects.
#[derive(Debug)]
pub struct NodeDisplay {
    /// The node.
    pub inner: models::Node,
    /// How it is displayed.
    pub format: NodeDisplayFormat,
}

/// The cordon-labels cell: the cordon labels, then the drain labels, each list
/// joined with ", ", and ", " between the two joins where both are non-empty.
pub open spec fn cordon_labels_cell(node: models::Node) -> Seq<char> {
    let cordon = join(cordon_labels(node), ", "@);
    let drain = join(drain_labels(node), ", "@);
    if cordon.len() > 0 && drain.len() > 0 {
        cordon + ", "@ + drain
    } else {
        cordon + drain
    }
}

/// The rows of a node displayed in the given format.
pub open spec fn display_rows(node: models::Node, format: NodeDisplayFormat) -> Seq<Seq<Seq<char>>> {
    match format {
        NodeDisplayFormat::Default => seq![node_row(node)],
        NodeDisplayFormat::CordonLabels => seq![node_row(node).push(cordon_labels_cell(node))],
        NodeDisplayFormat::Drain => seq![
            node_row(node).push("not draining"@).push(join(drain_labels(node), ", "@)),
        ],
    }
}

/// The header of a node table in the given format.
pub open spec fn display_header(format: NodeDisplayFormat) -> Seq<Seq<char>> {
    match format {
        NodeDisplayFormat::Default => node_headers(),
        NodeDisplayFormat::CordonLabels => node_headers().push("CORDON LABELS"@),
        NodeDisplayFormat::Drain => node_headers().push("DRAIN STATE"@).push("DRAIN LABELS"@),
    }
}

/// The labels of a list, or none.
fn labels_of(list: Option<&Vec<String>>) -> (r: String)
    ensures
        r@ == match list {
            Some(l) => join(l.deep_view(), ", "@),
            None => Seq::empty(),
        },
{
    match list {
        Some(l) => join_strings(l, ", "),
        None => String::new(),
    }
}

impl NodeDisplay {
    /// Create a new `NodeDisplay` instance.
    pub fn new(node: models::Node, format: NodeDisplayFormat) -> (r: Self)
        ensures
            r.inner == node,
            r.format == format,
    {
        NodeDisplay { inner: node, format }
    }

    /// Create the rows required for a `NodeDisplay` object.
    pub fn create_rows(&self) -> (r: Vec<Vec<String>>)
        ensures
            rows_view(r) == display_rows(self.inner, self.format),
    {
        let mut rows = node_rows(&self.inner);
        assert(rows@.len() == rows_view(rows).len());
        let ghost first = rows_view(rows)[0];
        assert(rows@[0].deep_view() == first);
        let (cordon, drain) = match &self.inner.spec {
            Some(spec) => (Some(&spec.cordon_labels), Some(&spec.drain_labels)),
            None => (None, None),
        };
        match self.format {
            NodeDisplayFormat::Default => {},
            NodeDisplayFormat::CordonLabels => {
                let mut cordon_labels_string = labels_of(cordon);
                let drain_labels_string = labels_of(drain);
                if cordon_labels_string.as_str().unicode_len() != 0
                    && drain_labels_string.as_str().unicode_len() != 0 {
                    cordon_labels_string.append(", ");
                }
                cordon_labels_string.append(drain_labels_string.as_str());
                let mut row = rows.pop().unwrap();
                row.push(cordon_labels_string);
                assert(row.deep_view() =~= first.push(cordon_labels_cell(self.inner)));
                rows.push(row);
                assert(rows_view(rows)[0] == row.deep_view());
            },
            NodeDisplayFormat::Drain => {
                let drain_state_string = String::from_str("not draining");
                let drain_labels_string = labels_of(drain);
                let mut row = rows.pop().unwrap();
                row.push(drain_state_string);
                row.push(drain_labels_string);
                assert(row.deep_view() =~= first.push("not draining"@).push(
                    join(drain_labels(self.inner), ", "@),
                ));
                rows.push(row);
                assert(rows_view(rows)[0] == row.deep_view());
            },
        }
        assert(rows_view(rows) =~= display_rows(self.inner, self.format));
        rows
    }

    /// Create the header for a `NodeDisplay` object.
    pub fn get_header_row(&self) -> (r: Vec<String>)
        ensures
            r.deep_view() == display_header(self.format),
    {
        let mut header = node_header_row();
        match self.format {
            NodeDisplayFormat::Default => {},
            NodeDisplayFormat::CordonLabels => {
                header.push(String::from_str("CORDON LABELS"));
            },
            NodeDisplayFormat::Drain => {
                header.push(String::from_str("DRAIN STATE"));
                header.push(String::from_str("DRAIN LABELS"));
            },
        }
        assert(header.deep_view() =~= display_header(self.format));
        header
    }
}

/// The cordon and drain labels left on a node, cordon labels first.
pub fn remaining_labels(node: &models::Node) -> (r: Vec<String>)
    ensures
        r.deep_view() == cordon_labels(*node) + drain_labels(*node),
{
    let mut labels: Vec<String> = Vec::new();
    match &node.spec {
        Some(spec) => {
            let ghost c = spec.cordon_labels.deep_view();
            let ghost d = spec.drain_labels.deep_view();
            let mut i: usize = 0;
            while i < spec.cordon_labels.len()
                invariant
                    i <= spec.cordon_labels@.len(),
                    c == spec.cordon_labels.deep_view(),
                    labels@.len() == i,
                    forall|k: int| 0 <= k < i ==> #[trigger] labels@[k]@ == c[k],
                decreases spec.cordon_labels@.len() - i,
            {
                labels.push(spec.cordon_labels[i].clone());
                i = i + 1;
            }
            let mut j: usize = 0;
            while j < spec.drain_labels.len()
                invariant
                    j <= spec.drain_labels@.len(),
                    c == spec.cordon_labels.deep_view(),
                    d == spec.drain_labels.deep_view(),
                    labels@.len() == c.len() + j,
                    forall|k: int| 0 <= k < c.len() ==> #[trigger] labels@[k]@ == c[k],
                    forall|k: int| 0 <= k < j ==> #[trigger] labels@[c.len() + k]@ == d[k],
                decreases spec.drain_labels@.len() - j,
            {
                labels.push(spec.drain_labels[j].clone());
                j = j + 1;
            }
            assert forall|k: int| 0 <= k < labels@.len() implies #[trigger] labels.deep_view()[k]
                == (c + d)[k] by {
                if k >= c.len() {
                    assert(labels@[c.len() + (k - c.len())]@ == d[k - c.len()]);
                }
            }
            assert(labels.deep_view() =~= c + d);
        },
        None => {
            assert(labels.deep_view() =~= Seq::<Seq<char>>::empty());
        },
    }
    labels
}

/// Where no label is empty, the cordon-labels cell is all the labels left on the
/// node, cordon labels first, joined with ", ".
pub proof fn law_cordon_cell_joins_all_labels(node: models::Node)
    requires
        forall|i: int|
            0 <= i < cordon_labels(node).len() ==> #[trigger] cordon_labels(node)[i].len() > 0,
        forall|i: int|
            0 <= i < drain_labels(node).len() ==> #[trigger] drain_labels(node)[i].len() > 0,
    ensures
        cordon_labels_cell(node) == join(cordon_labels(node) + drain_labels(node), ", "@),
{
    let c = cordon_labels(node);
    let d = drain_labels(node);
    lemma_join_concat(c, d, ", "@);
    lemma_join_nonempty(c, ", "@);
    lemma_join_nonempty(d, ", "@);
    if c.len() == 0 {
        assert(join(c, ", "@) =~= Seq::<char>::empty());
        assert(Seq::<char>::empty() + join(d, ", "@) =~= join(d, ", "@));
    }
    if d.len() == 0 {
        assert(join(c, ", "@) + Seq::<char>::empty() =~= join(c, ", "@));
    }
}

/// A join of non-empty strings is empty only when the list is.
pub proof fn lemma_join_nonempty(list: Seq<Seq<char>>, sep: Seq<char>)
    requires
        forall|i: int| 0 <= i < list.len() ==> #[trigger] list[i].len() > 0,
    ensures
        list.len() > 0 ==> join(list, sep).len() > 0,
        list.len() == 0 ==> join(list, sep).len() == 0,
    decreases list.len(),
{
    if list.len() > 1 {
        assert(list.last() == list[list.len() - 1]);
    } else if list.len() == 1 {
        assert(list[0].len() > 0);
    }
}

/// The name a node status is shown by.
pub open spec fn status_name(status: models::NodeStatus) -> Seq<char> {
    match status {
        models::NodeStatus::Online => "Online"@,
        models::NodeStatus::Offline => "Offline"@,
        models::NodeStatus::Unknown => "Unknown"@,
    }
}

/// A node's row holds its id; the gRPC endpoint and status of its state when it
/// has one (an Offline node shows "Offline"), else the endpoint of its
/// specification (empty without one) and "Unknown"; and "true" exactly when its
/// specification has cordon or drain labels, else "false".
pub proof fn law_node_row(node: models::Node)
    ensures
        node_row(node).len() == 4,
        node_row(node)[0] == node.id@,
        node.state matches Some(st) ==> node_row(node)[1] == st.grpc_endpoint@ && node_row(node)[2]
            == status_name(st.status),
        node.state is None ==> node_row(node)[2] == "Unknown"@ && node_row(node)[1] == match node.spec {
            Some(sp) => sp.grpc_endpoint@,
            None => Seq::<char>::empty(),
        },
        node_row(node)[3] == (if node.spec matches Some(sp) && (sp.cordon_labels@.len() > 0
            || sp.drain_labels@.len() > 0) {
            "true"@
        } else {
            "false"@
        }),
{
}

/// A displayed node has one row: its node row, followed in the cordon-labels
/// format by the cordon-labels cell, and in the drain format by "not draining" and
/// its drain labels joined with ", "; the header is the node header followed by
/// the names of those extra cells.
pub proof fn law_display(node: models::Node, format: NodeDisplayFormat)
    ensures
        display_rows(node, format).len() == 1,
        format == NodeDisplayFormat::Default ==> display_rows(node, format)[0] == node_row(node),
        format == NodeDisplayFormat::CordonLabels ==> display_rows(node, format)[0] == node_row(
            node,
        ).push(cordon_labels_cell(node)),
        format == NodeDisplayFormat::Drain ==> display_rows(node, format)[0] == node_row(node).push(
            "not draining"@,
        ).push(join(drain_labels(node), ", "@)),
        display_header(NodeDisplayFormat::Default) == seq![
            "ID"@,
            "GRPC ENDPOINT"@,
            "STATUS"@,
            "CORDONED"@,
        ],
        display_header(NodeDisplayFormat::CordonLabels) == seq![
            "ID"@,
            "GRPC ENDPOINT"@,
            "STATUS"@,
            "CORDONED"@,
            "CORDON LABELS"@,
        ],
        display_header(NodeDisplayFormat::Drain) == seq![
            "ID"@,
            "GRPC ENDPOINT"@,
            "STATUS"@,
            "CORDONED"@,
            "DRAIN STATE"@,
            "DRAIN LABELS"@,
        ],
{
    assert(display_header(NodeDisplayFormat::CordonLabels) =~= seq![
        "ID"@,
        "GRPC ENDPOINT"@,
        "STATUS"@,
        "CORDONED"@,
        "CORDON LABELS"@,
    ]);
    assert(display_header(NodeDisplayFormat::Drain) =~= seq![
        "ID"@,
        "GRPC ENDPOINT"@,
        "STATUS"@,
        "CORDONED"@,
        "DRAIN STATE"@,
        "DRAIN LABELS"@,
    ]);
}

/// The labels left after an uncordon are empty exactly when the node has no
/// cordon and no drain labels.
pub proof fn law_remaining_labels_empty(node: models::Node)
    ensures
        (cordon_labels(node) + drain_labels(node)).len() == 0 <==> (cordon_labels(node).len() == 0
            && drain_labels(node).len() == 0),
{
}

/// Joining nothing gives nothing, one string gives that string, and two
/// strings give the first, the separator and the second; adding a string to a
/// non-empty list adds the separator and that string.
pub proof fn law_join(a: Seq<char>, b: Seq<char>, list: Seq<Seq<char>>, sep: Seq<char>)
    ensures
        join(Seq::empty(), sep) == Seq::<char>::empty(),
        join(seq![a], sep) == a,
        join(seq![a, b], sep) == a + sep + b,
        list.len() > 0 ==> join(list.push(b), sep) == join(list, sep) + sep + b,
{
    assert(seq![a, b].drop_last() =~= seq![a]);
    assert(list.push(b).drop_last() =~= list);
}

} // verus!
