//! The shared UI container the screen registers its widgets into: widget
//! creation returns opaque handles, and widgets are removed by handle.

use vstd::prelude::*;

verus! {

/// Vertical anchor of a widget.
#[derive(Clone, Copy, PartialEq, Eq, Structural, Debug)]
pub enum VAttach {
    Top,
    Middle,
    Bottom,
}

/// Horizontal anchor of a widget.
#[derive(Clone, Copy, PartialEq, Eq, Structural, Debug)]
pub enum HAttach {
    Left,
    Center,
    Right,
}

/// Whether a widget is an image or a text label.
#[derive(Clone, Copy, PartialEq, Eq, Structural, Debug)]
pub enum WidgetKind {
    Image,
    Text,
}

/// One renderable UI element: position, anchor, size, and its content — the
/// texture identifier of an image, or the text of a label. An image widget
/// shows its texture whole; no sub-region is modeled here.
#[derive(Debug)]
pub struct Widget {
    pub id: u64,
    pub kind: WidgetKind,
    pub x: i32,
    pub y: i32,
    pub width: u64,
    pub height: u64,
    pub v_attach: VAttach,
    pub h_attach: HAttach,
    pub content: String,
}

/// The shared UI container: owns every live widget, hands out a fresh handle
/// for each creation request, and removes widgets by handle.
pub struct Container {
    next_id: u64,
    widgets: Vec<Widget>,
}

impl Container {
    /// The live widgets, in creation order.
    pub closed spec fn widgets(&self) -> Seq<Widget> {
        self.widgets@
    }

    /// The handle the next widget-creation request will get.
    pub closed spec fn next_id_spec(&self) -> u64 {
        self.next_id
    }

    /// Whether a widget with handle `id` is live in the container.
    pub open spec fn holds(&self, id: u64) -> bool {
        exists|i: int| 0 <= i < self.widgets().len() && (#[trigger] self.widgets()[i]).id == id
    }

    /// Handles are unique, and never reused: every live handle lies below
    /// `next_id_spec()`.
    pub open spec fn wf(&self) -> bool {
        &&& forall|i: int|
            0 <= i < self.widgets().len() ==> (#[trigger] self.widgets()[i]).id
                < self.next_id_spec()
        &&& forall|i: int, j: int|
            0 <= i < self.widgets().len() && 0 <= j < self.widgets().len() && i != j ==> (
            #[trigger] self.widgets()[i]).id != (#[trigger] self.widgets()[j]).id
    }

    pub fn new() -> (r: Container)
        ensures
            r.wf(),
            r.widgets() == Seq::<Widget>::empty(),
            r.next_id_spec() == 0,
    {
        Container { next_id: 0, widgets: Vec::new() }
    }

    pub fn widget_count(&self) -> (r: usize)
        ensures
            r == self.widgets().len(),
    {
        self.widgets.len()
    }

    pub fn widget_at(&self, i: usize) -> (r: &Widget)
        requires
            i < self.widgets().len(),
        ensures
            *r == self.widgets()[i as int],
    {
        &self.widgets[i]
    }

    fn push_widget(&mut self, w: Widget) -> (id: u64)
        requires
            old(self).wf(),
            old(self).next_id_spec() < u64::MAX,
            w.id == old(self).next_id_spec(),
        ensures
            final(self).wf(),
            id == old(self).next_id_spec(),
            !old(self).holds(id),
            final(self).next_id_spec() == old(self).next_id_spec() + 1,
            final(self).widgets() == old(self).widgets().push(w),
            forall|j: u64| final(self).holds(j) <==> (old(self).holds(j) || j == id),
    {
        let id = self.next_id;
        self.next_id = self.next_id + 1;
        self.widgets.push(w);
        proof {
            let n = old(self).widgets().len() as int;
            assert(self.widgets()[n] == w);
            assert forall|j: u64| self.holds(j) <==> (old(self).holds(j) || j == id) by {
                if old(self).holds(j) {
                    let i = choose|i: int|
                        0 <= i < old(self).widgets().len() && (#[trigger] old(
                            self,
                        ).widgets()[i]).id == j;
                    assert(self.widgets()[i].id == j);
                }
                if j == id {
                    assert(self.widgets()[n].id == j);
                }
                if self.holds(j) {
                    let i = choose|i: int|
                        0 <= i < self.widgets().len() && (#[trigger] self.widgets()[i]).id == j;
                    if i < old(self).widgets().len() {
                        assert(old(self).widgets()[i].id == j);
                    }
                }
            }
        }
        id
    }

    /// Create an image widget with the given placement and texture
    /// identifier; returns its fresh handle.
    pub fn add_image(
        &mut self,
        x: i32,
        y: i32,
        width: u64,
        height: u64,
        v_attach: VAttach,
        h_attach: HAttach,
        texture: String,
    ) -> (id: u64)
        requires
            old(self).wf(),
            old(self).next_id_spec() < u64::MAX,
        ensures
            final(self).wf(),
            id == old(self).next_id_spec(),
            !old(self).holds(id),
            final(self).next_id_spec() == old(self).next_id_spec() + 1,
            final(self).widgets() == old(self).widgets().push(
                (Widget {
                    id,
                    kind: WidgetKind::Image,
                    x,
                    y,
                    width,
                    height,
                    v_attach,
                    h_attach,
                    content: texture,
                }),
            ),
            forall|j: u64| final(self).holds(j) <==> (old(self).holds(j) || j == id),
    {
        let id = self.next_id;
        self.push_widget(
            Widget { id, kind: WidgetKind::Image, x, y, width, height, v_attach, h_attach, content: texture },
        )
    }

    /// Create a text widget with the given placement and text; returns its
    /// fresh handle.
    pub fn add_text(
        &mut self,
        x: i32,
        y: i32,
        width: u64,
        height: u64,
        v_attach: VAttach,
        h_attach: HAttach,
        text: String,
    ) -> (id: u64)
        requires
            old(self).wf(),
            old(self).next_id_spec() < u64::MAX,
        ensures
            final(self).wf(),
            id == old(self).next_id_spec(),
            !old(self).holds(id),
            final(self).next_id_spec() == old(self).next_id_spec() + 1,
            final(self).widgets() == old(self).widgets().push(
                (Widget {
                    id,
                    kind: WidgetKind::Text,
                    x,
                    y,
                    width,
                    height,
                    v_attach,
                    h_attach,
                    content: text,
                }),
            ),
            forall|j: u64| final(self).holds(j) <==> (old(self).holds(j) || j == id),
    {
        let id = self.next_id;
        self.push_widget(
            Widget { id, kind: WidgetKind::Text, x, y, width, height, v_attach, h_attach, content: text },
        )
    }

    /// Remove the widget with handle `id`; without effect when no live widget
    /// carries it.
    pub fn remove_widget(&mut self, id: u64)
        requires
            old(self).wf(),
        ensures
            final(self).wf(),
            final(self).next_id_spec() == old(self).next_id_spec(),
            forall|j: u64| final(self).holds(j) <==> (old(self).holds(j) && j != id),
    {
        let n = self.widgets.len();
        let mut i: usize = 0;
        while i < n
            invariant
                n == self.widgets@.len(),
                i <= n,
                old(self).wf(),
                *self == *old(self),
                forall|k: int| 0 <= k < i ==> (#[trigger] self.widgets()[k]).id != id,
            decreases n - i,
        {
            if self.widgets[i].id == id {
                self.widgets.remove(i);
                proof {
                    let pre = old(self).widgets();
                    let post = self.widgets();
                    let ii = i as int;
                    assert forall|k: int| 0 <= k < post.len() implies #[trigger] post[k] == (if k
                        < ii {
                        pre[k]
                    } else {
                        pre[k + 1]
                    }) by {
                        assert(pre.remove(ii) == pre.subrange(0, ii) + pre.subrange(
                            ii + 1,
                            pre.len() as int,
                        ));
                        if k < ii {
                            assert(post[k] == pre.subrange(0, ii)[k]);
                        } else {
                            assert(post[k] == pre.subrange(ii + 1, pre.len() as int)[k - ii]);
                        }
                    }
                    assert forall|j: u64| self.holds(j) <==> (old(self).holds(j) && j != id) by {
                        if self.holds(j) {
                            let k = choose|k: int|
                                0 <= k < post.len() && (#[trigger] post[k]).id == j;
                            if k < ii {
                                assert(post[k] == pre[k]);
                                assert(pre[k].id == j);
                                assert(pre[k].id != pre[ii].id);
                            } else {
                                assert(post[k] == pre[k + 1]);
                                assert(pre[k + 1].id == j);
                                assert(pre[k + 1].id != pre[ii].id);
                            }
                            assert(old(self).holds(j));
                            assert(pre[ii].id == id);
                            assert(j != id);
                        }
                        if old(self).holds(j) && j != id {
                            let k = choose|k: int|
                                0 <= k < pre.len() && (#[trigger] pre[k]).id == j;
                            if k < ii {
                                assert(post[k] == pre[k]);
                                assert(post[k].id == j);
                            } else {
                                assert(k != ii);
                                assert(post[k - 1] == pre[k]);
                                assert(post[k - 1].id == j);
                            }
                            assert(self.holds(j));
                        }
                    }
                    assert forall|k: int|
                        0 <= k < post.len() implies (#[trigger] post[k]).id
                            < self.next_id_spec() by {
                        if k < ii {
                            assert(post[k] == pre[k]);
                            assert(pre[k].id < old(self).next_id_spec());
                        } else {
                            assert(post[k] == pre[k + 1]);
                            assert(pre[k + 1].id < old(self).next_id_spec());
                        }
                    }
                    assert forall|k: int, l: int|
                        0 <= k < post.len() && 0 <= l < post.len() && k != l implies (
                    #[trigger] post[k]).id != (#[trigger] post[l]).id by {
                        let k0: int = if k < ii {
                            k
                        } else {
                            k + 1
                        };
                        let l0: int = if l < ii {
                            l
                        } else {
                            l + 1
                        };
                        assert(post[k] == pre[k0]);
                        assert(post[l] == pre[l0]);
                        assert(pre[k0].id != pre[l0].id);
                    }
                }
                return ;
            }
            i = i + 1;
        }
        proof {
            assert forall|j: u64| self.holds(j) <==> (old(self).holds(j) && j != id) by {
                if old(self).holds(j) {
                    let k = choose|k: int|
                        0 <= k < old(self).widgets().len() && (#[trigger] old(
                            self,
                        ).widgets()[k]).id == j;
                    assert(self.widgets()[k].id == j);
                }
            }
        }
    }
}

} // verus!
