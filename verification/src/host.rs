//! What this crate takes on trust from `iced`.
//!
//! Nothing in this file is proved. The types are declared so that values of
//! them can pass through verified code, and each contract below is a claim
//! about `iced`'s own code, to be held against its source.
//!
//! Two kinds of outside work are absent on purpose: whatever calls into the
//! child's own `Widget` implementation, and whatever reads the host's
//! type-erased state cells. Those calls can panic on a tree that does not
//! belong to the widget, and nothing here could rule that out.

use iced::advanced::layout::{Layout, Node};
use iced::advanced::Shell;
use iced::event::Status;
use iced::mouse::Cursor;
use iced::{Element, Length, Point, Rectangle, Renderer, Size, Theme};
use vstd::prelude::*;

verus! {

/// `iced::event::Status`: whether some widget has already handled an event.
/// Declared with its two public variants, `Ignored` and `Captured`, so that
/// verified code can tell them apart.
#[verifier::external_type_specification]
pub struct ExStatus(Status);

/// `iced::mouse::Cursor`: the pointer, `Available` at a point or
/// `Unavailable`. Declared with its two public variants, so that contracts
/// can speak of an absent pointer.
#[verifier::external_type_specification]
pub struct ExCursor(Cursor);

/// `iced::Length`: how a widget wants to fill one axis. Declared with its
/// four public variants, so that contracts can name `Shrink`.
#[verifier::external_type_specification]
pub struct ExLength(Length);

/// `iced::Size`: a width and a height. Declared with its two public fields.
#[verifier::external_type_specification]
#[verifier::reject_recursive_types(T)]
pub struct ExSize<T>(Size<T>);

/// `iced::Point`: a position on screen, carried through unread.
#[verifier::external_type_specification]
#[verifier::external_body]
#[verifier::reject_recursive_types(T)]
pub struct ExPoint<T>(Point<T>);

/// `iced::Rectangle`: an axis-aligned region of the screen, carried through
/// unread.
#[verifier::external_type_specification]
#[verifier::external_body]
#[verifier::reject_recursive_types(T)]
pub struct ExRectangle<T>(Rectangle<T>);

/// `iced::advanced::Layout`: where the host has placed a widget.
#[verifier::external_type_specification]
#[verifier::external_body]
pub struct ExLayout<'a>(Layout<'a>);

/// `iced::advanced::layout::Node`: the size of a widget and the nodes of its
/// children.
#[verifier::external_type_specification]
#[verifier::external_body]
pub struct ExNode(Node);

/// `iced::advanced::Shell`: the host's sink for published messages.
#[verifier::external_type_specification]
#[verifier::external_body]
#[verifier::reject_recursive_types(Message)]
pub struct ExShell<'a, Message>(Shell<'a, Message>);

/// `iced::Renderer`: the host's renderer, named only in the child's type.
#[verifier::external_type_specification]
#[verifier::external_body]
pub struct ExRenderer(Renderer);

/// `iced::Theme`: the host's theme, named only in the child's type.
#[verifier::external_type_specification]
#[verifier::external_body]
pub struct ExTheme(Theme);

/// `iced::Element`: a boxed widget of any kind. The wrapper owns one and
/// never looks inside.
#[verifier::external_type_specification]
#[verifier::external_body]
#[verifier::reject_recursive_types(Message)]
#[verifier::reject_recursive_types(Theme)]
#[verifier::reject_recursive_types(Renderer)]
pub struct ExElement<'a, Message, Theme, Renderer>(Element<'a, Message, Theme, Renderer>);

/// What `Layout::bounds` returns for a layout: the region of the screen that
/// the widget occupies.
pub uninterp spec fn layout_bounds(layout: Layout<'_>) -> Rectangle;

/// What `Cursor::position_in` returns for a cursor and a region: the
/// pointer's position within the region, if it is there.
pub uninterp spec fn position_within(cursor: Cursor, bounds: Rectangle) -> Option<Point>;

/// What `Node::size` returns for a node.
pub uninterp spec fn node_size(node: Node) -> Size;

/// The child nodes that a node holds, in order.
pub uninterp spec fn node_children(node: Node) -> Seq<Node>;

/// `Size::new` stores its two arguments as the width and the height.
pub assume_specification<T>[ Size::<T>::new ](width: T, height: T) -> (size: Size<T>)
    ensures
        size == (Size { width, height }),
;

/// `Layout::bounds` puts the layout's position and its node's width and
/// height into a rectangle. It reads nothing but the layout.
pub assume_specification<'a>[ Layout::<'a>::bounds ](layout: &Layout<'a>) -> (bounds: Rectangle)
    ensures
        bounds == layout_bounds(*layout),
;

/// `Cursor::position_in` returns the pointer's position relative to `bounds`
/// when the cursor is available and `bounds` contains it, and `None`
/// otherwise. It reads nothing but its two arguments, and an unavailable
/// cursor is in no region.
pub assume_specification[ Cursor::position_in ](cursor: Cursor, bounds: Rectangle) -> (position:
    Option<Point>)
    ensures
        position == position_within(cursor, bounds),
        cursor is Unavailable ==> position is None,
;

/// `Node::size` returns the width and the height of the node's bounds. It
/// reads nothing but the node.
pub assume_specification[ Node::size ](node: &Node) -> (size: Size)
    ensures
        size == node_size(*node),
;

/// `Node::with_children` builds a node that has the given size and holds
/// exactly the given children, as they are.
pub assume_specification[ Node::with_children ](size: Size, children: Vec<Node>) -> (node: Node)
    ensures
        node_size(node) == size,
        node_children(node) == children@,
;

/// `Shell::publish` appends the message to the host's queue. The queue's
/// contents have no name here, so nothing is claimed of the shell afterwards.
pub assume_specification<'a, Message>[ Shell::<'a, Message>::publish ](
    shell: &mut Shell<'a, Message>,
    message: Message,
);

} // verus!
