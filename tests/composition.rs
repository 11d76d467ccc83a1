use cube_camera::frame::{draw_plan, Cube, DrawOp};

#[test]
fn identity_model_leaves_projection_view_unchanged() {
    let projection = glm::ext::perspective(glm::radians(45.0f32), 4.0 / 3.0, 0.1, 100.0);
    let view = glm::ext::look_at(
        glm::vec3(0.0f32, 0.0, 5.0),
        glm::vec3(0.0, 0.0, 0.0),
        glm::vec3(0.0, 1.0, 0.0),
    );
    let identity = glm::mat4(
        1.0f32, 0.0, 0.0, 0.0, 0.0, 1.0, 0.0, 0.0, 0.0, 0.0, 1.0, 0.0, 0.0, 0.0, 0.0, 1.0,
    );
    // An idle frame first draws the left cube, whose model starts as the identity.
    assert_eq!(draw_plan(false, false)[0], DrawOp::Draw(Cube::Left));
    let mvp = projection * view * identity;
    assert_eq!(mvp, projection * view);
}
