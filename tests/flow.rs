use griphin::flow::builder::{FlowError, RenderFlowBuilder, RenderFlowBuilderID};
use griphin::flow::grid::FlowGridBuilder;
use griphin::flow::render_task::{RenderTaskBuilder, RenderTaskInputBuilder, RenderTaskOutputBuilder};
use griphin::{str_ref, AbstractGridID};

fn input(grid: FlowGridBuilder, name: &'static str) -> RenderTaskInputBuilder {
    RenderTaskInputBuilder { grid, shader_variable_name: str_ref(name) }
}

fn output(grid: FlowGridBuilder, name: &'static str) -> RenderTaskOutputBuilder {
    RenderTaskOutputBuilder { grid, shader_variable_name: str_ref(name) }
}

fn task(
    inputs: Vec<RenderTaskInputBuilder>,
    outputs: Vec<RenderTaskOutputBuilder>,
    depth_stencil_grid: FlowGridBuilder,
) -> RenderTaskBuilder {
    RenderTaskBuilder { inputs, outputs, depth_stencil_grid }
}

fn builder() -> RenderFlowBuilder {
    RenderFlowBuilder::new(RenderFlowBuilderID::new(1, 0))
}

fn moments(builder: &RenderFlowBuilder) -> Vec<u32> {
    builder.get_render_tasks().iter().map(|t| t.get_moment()).collect()
}

#[test]
fn write_read_write_on_one_grid() {
    let mut b = builder();
    let r = b.add_grid_node(AbstractGridID::new(1, 0), false).unwrap();
    let d = b.add_grid_node(AbstractGridID::new(1, 1), false).unwrap();
    // Each task has a depth/stencil grid of its own, so only `r` links them.
    let d2 = b.add_grid_node(AbstractGridID::new(1, 2), false).unwrap();
    let d3 = b.add_grid_node(AbstractGridID::new(1, 3), false).unwrap();
    b.add_render_task(task(vec![], vec![output(r, "color")], d)).unwrap();
    assert_eq!(moments(&b), vec![1]);
    b.add_render_task(task(vec![input(r, "color")], vec![], d2)).unwrap();
    assert_eq!(moments(&b), vec![1, 2]);
    b.add_render_task(task(vec![], vec![output(r, "color")], d3)).unwrap();
    assert_eq!(moments(&b), vec![1, 2, 3]);
}

#[test]
fn writes_to_different_grids_share_a_moment() {
    let mut b = builder();
    let r1 = b.add_grid_node(AbstractGridID::new(1, 0), false).unwrap();
    let r2 = b.add_grid_node(AbstractGridID::new(1, 1), false).unwrap();
    let d1 = b.add_grid_node(AbstractGridID::new(1, 2), false).unwrap();
    let d2 = b.add_grid_node(AbstractGridID::new(1, 3), false).unwrap();
    b.add_render_task(task(vec![], vec![output(r1, "a")], d1)).unwrap();
    b.add_render_task(task(vec![], vec![output(r2, "b")], d2)).unwrap();
    assert_eq!(moments(&b), vec![1, 1]);
}

#[test]
fn shared_depth_stencil_grid_allows_equal_moments() {
    let mut b = builder();
    let d = b.add_grid_node(AbstractGridID::new(1, 0), false).unwrap();
    let r1 = b.add_grid_node(AbstractGridID::new(1, 1), false).unwrap();
    let r2 = b.add_grid_node(AbstractGridID::new(1, 2), false).unwrap();
    b.add_render_task(task(vec![], vec![output(r1, "a")], d)).unwrap();
    b.add_render_task(task(vec![], vec![output(r2, "b")], d)).unwrap();
    let m = moments(&b);
    assert!(m[1] >= m[0]);
    // The depth/stencil bound is inclusive: both tasks share moment 1.
    assert_eq!(m, vec![1, 1]);
}

#[test]
fn registering_a_grid_twice_fails() {
    let mut b = builder();
    assert!(b.add_grid_node(AbstractGridID::new(1, 5), true).is_ok());
    assert_eq!(
        b.add_grid_node(AbstractGridID::new(1, 5), false).unwrap_err(),
        FlowError::DuplicateResourceError
    );
}

#[test]
fn registering_a_foreign_grid_fails() {
    let mut b = builder();
    assert_eq!(
        b.add_grid_node(AbstractGridID::new(2, 0), false).unwrap_err(),
        FlowError::ForeignResourceError
    );
}

#[test]
fn task_with_foreign_grid_is_refused_and_changes_nothing() {
    let mut b = builder();
    let r = b.add_grid_node(AbstractGridID::new(1, 0), false).unwrap();
    let mut other = RenderFlowBuilder::new(RenderFlowBuilderID::new(2, 0));
    let foreign = other.add_grid_node(AbstractGridID::new(2, 0), false).unwrap();
    assert_eq!(
        b.add_render_task(task(vec![input(foreign, "x")], vec![], r)),
        Err(FlowError::ForeignResourceError)
    );
    assert!(b.get_render_tasks().is_empty());
}

#[test]
fn task_with_unregistered_grid_is_refused() {
    let mut b = builder();
    let r = b.add_grid_node(AbstractGridID::new(1, 0), false).unwrap();
    let mut twin = builder();
    let unknown = twin.add_grid_node(AbstractGridID::new(1, 9), false).unwrap();
    assert_eq!(
        b.add_render_task(task(vec![], vec![output(unknown, "x")], r)),
        Err(FlowError::UnregisteredResourceError)
    );
    // A foreign grid is reported before an unregistered one.
    let mut other = RenderFlowBuilder::new(RenderFlowBuilderID::new(2, 0));
    let foreign = other.add_grid_node(AbstractGridID::new(2, 0), false).unwrap();
    assert_eq!(
        b.add_render_task(task(vec![input(unknown, "y")], vec![], foreign)),
        Err(FlowError::ForeignResourceError)
    );
    assert!(b.get_render_tasks().is_empty());
}

#[test]
fn read_after_write_is_later() {
    let mut b = builder();
    let r = b.add_grid_node(AbstractGridID::new(1, 0), false).unwrap();
    let s = b.add_grid_node(AbstractGridID::new(1, 1), false).unwrap();
    let d = b.add_grid_node(AbstractGridID::new(1, 2), false).unwrap();
    let e = b.add_grid_node(AbstractGridID::new(1, 3), false).unwrap();
    b.add_render_task(task(vec![], vec![output(r, "a")], d)).unwrap();
    b.add_render_task(task(vec![], vec![output(s, "b")], e)).unwrap();
    b.add_render_task(task(vec![input(s, "b")], vec![output(r, "a")], e)).unwrap();
    b.add_render_task(task(vec![input(r, "a")], vec![], d)).unwrap();
    assert_eq!(moments(&b), vec![1, 1, 2, 3]);
}

#[test]
fn write_after_write_and_read_are_later() {
    let mut b = builder();
    let r = b.add_grid_node(AbstractGridID::new(1, 0), false).unwrap();
    let s = b.add_grid_node(AbstractGridID::new(1, 1), false).unwrap();
    let d = b.add_grid_node(AbstractGridID::new(1, 2), false).unwrap();
    let e = b.add_grid_node(AbstractGridID::new(1, 3), false).unwrap();
    b.add_render_task(task(vec![], vec![output(r, "a")], d)).unwrap();
    b.add_render_task(task(vec![], vec![output(r, "a")], e)).unwrap();
    b.add_render_task(task(vec![input(r, "a")], vec![output(s, "b")], d)).unwrap();
    b.add_render_task(task(vec![], vec![output(r, "a")], e)).unwrap();
    assert_eq!(moments(&b), vec![1, 2, 3, 4]);
}

#[test]
fn a_later_read_only_task_can_move_the_last_read_back() {
    let mut b = builder();
    let r = b.add_grid_node(AbstractGridID::new(1, 0), false).unwrap();
    let a = b.add_grid_node(AbstractGridID::new(1, 1), false).unwrap();
    let d1 = b.add_grid_node(AbstractGridID::new(1, 2), false).unwrap();
    let d2 = b.add_grid_node(AbstractGridID::new(1, 3), false).unwrap();
    let d3 = b.add_grid_node(AbstractGridID::new(1, 4), false).unwrap();
    let d4 = b.add_grid_node(AbstractGridID::new(1, 5), false).unwrap();
    b.add_render_task(task(vec![], vec![output(a, "a")], d1)).unwrap();
    b.add_render_task(task(vec![input(a, "a"), input(r, "r")], vec![], d2)).unwrap();
    b.add_render_task(task(vec![input(r, "r")], vec![], d3)).unwrap();
    b.add_render_task(task(vec![], vec![output(r, "r")], d4)).unwrap();
    // The writer of `r` shares moment 2 with the second task, which read `r`.
    assert_eq!(moments(&b), vec![1, 2, 1, 2]);
}

#[test]
fn sketches_keep_the_bindings() {
    let mut b = builder();
    let r = b.add_grid_node(AbstractGridID::new(1, 0), false).unwrap();
    let s = b.add_grid_node(AbstractGridID::new(1, 1), false).unwrap();
    let d = b.add_grid_node(AbstractGridID::new(1, 2), false).unwrap();
    b.add_render_task(task(vec![input(r, "in0"), input(s, "in1")], vec![output(s, "out")], d))
        .unwrap();
    let sketch = &b.get_render_tasks()[0];
    assert_eq!(sketch.get_inputs().len(), 2);
    assert_eq!(sketch.get_inputs()[0].get_grid_id(), AbstractGridID::new(1, 0));
    assert_eq!(*sketch.get_inputs()[0].get_shader_variable_name(), "in0");
    assert_eq!(sketch.get_inputs()[1].get_grid_id(), AbstractGridID::new(1, 1));
    assert_eq!(*sketch.get_inputs()[1].get_shader_variable_name(), "in1");
    assert_eq!(sketch.get_outputs().len(), 1);
    assert_eq!(sketch.get_outputs()[0].get_grid_id(), AbstractGridID::new(1, 1));
    assert_eq!(*sketch.get_outputs()[0].get_shader_variable_name(), "out");
    assert_eq!(sketch.get_depth_stencil_grid(), AbstractGridID::new(1, 2));
}

#[test]
fn preserving_twice_is_preserving_once() {
    let mut b = builder();
    let r = b.add_grid_node(AbstractGridID::new(1, 0), true).unwrap();
    let node = b.get_grid_node(AbstractGridID::new(1, 0)).unwrap();
    assert!(node.preserve_initial_content());
    assert!(!node.preserve_final_content());
    assert_eq!(b.preserve_grid_node(r), Ok(()));
    let once = b.get_grid_node(AbstractGridID::new(1, 0)).unwrap();
    assert_eq!(b.preserve_grid_node(r), Ok(()));
    let twice = b.get_grid_node(AbstractGridID::new(1, 0)).unwrap();
    assert!(once.preserve_final_content());
    assert_eq!(once.preserve_final_content(), twice.preserve_final_content());
    assert_eq!(once.preserve_initial_content(), twice.preserve_initial_content());
    assert!(b.get_grid_node(AbstractGridID::new(1, 1)).is_none());
}

#[test]
fn preserving_an_unknown_grid_fails() {
    let mut b = builder();
    let mut twin = builder();
    let unknown = twin.add_grid_node(AbstractGridID::new(1, 3), false).unwrap();
    assert_eq!(b.preserve_grid_node(unknown), Err(FlowError::UnregisteredResourceError));
    let mut other = RenderFlowBuilder::new(RenderFlowBuilderID::new(7, 0));
    let foreign = other.add_grid_node(AbstractGridID::new(7, 3), false).unwrap();
    assert_eq!(b.preserve_grid_node(foreign), Err(FlowError::ForeignResourceError));
}

#[test]
fn builder_keeps_its_id() {
    let b = RenderFlowBuilder::new(RenderFlowBuilderID::new(4, 9));
    assert_eq!(*b.get_id(), RenderFlowBuilderID::new(4, 9));
    assert_eq!(b.get_id().get_group_id(), 4);
    let h = FlowGridBuilderProbe::probe();
    assert_eq!(h, AbstractGridID::new(4, 2));
}

struct FlowGridBuilderProbe;

impl FlowGridBuilderProbe {
    fn probe() -> AbstractGridID {
        let mut b = RenderFlowBuilder::new(RenderFlowBuilderID::new(4, 9));
        b.add_grid_node(AbstractGridID::new(4, 2), false).unwrap().get_grid_id()
    }
}

#[test]
fn task_with_only_a_depth_stencil_grid() {
    let mut b = builder();
    let d = b.add_grid_node(AbstractGridID::new(1, 0), false).unwrap();
    b.add_render_task(task(vec![], vec![], d)).unwrap();
    b.add_render_task(task(vec![], vec![], d)).unwrap();
    assert_eq!(moments(&b), vec![1, 1]);
    let sketch = &b.get_render_tasks()[1];
    assert!(sketch.get_inputs().is_empty());
    assert!(sketch.get_outputs().is_empty());
}

#[test]
fn depth_stencil_grid_waits_for_a_later_writer() {
    let mut b = builder();
    let r = b.add_grid_node(AbstractGridID::new(1, 0), false).unwrap();
    let d = b.add_grid_node(AbstractGridID::new(1, 1), false).unwrap();
    let e = b.add_grid_node(AbstractGridID::new(1, 2), false).unwrap();
    b.add_render_task(task(vec![], vec![output(r, "a")], e)).unwrap();
    b.add_render_task(task(vec![input(r, "a")], vec![], d)).unwrap();
    b.add_render_task(task(vec![], vec![], d)).unwrap();
    // The last task is bound by the write of `d` at moment 2, inclusively.
    assert_eq!(moments(&b), vec![1, 2, 2]);
}

#[test]
fn new_builder_is_empty() {
    let b = builder();
    assert!(b.get_render_tasks().is_empty());
    assert!(b.get_grid_node(AbstractGridID::new(1, 0)).is_none());
}
