use surfman_angle::attributes::GLInfo;
use surfman_angle::device::loader_address;
use surfman_angle::gl_utils::{
    destroy_framebuffer, GLCall, DRAW_FRAMEBUFFER, DRAW_FRAMEBUFFER_BINDING, READ_FRAMEBUFFER,
    READ_FRAMEBUFFER_BINDING,
};
use surfman_angle::{
    ColorSurface, Context, Device, Error, NativeContext, Operation, Step, SurfaceBindings,
    UnsafeEGLContextRef,
};

fn destroy(framebuffer_object: u32, draw: i32, read: i32) -> Vec<GLCall> {
    let mut calls: Vec<GLCall> = Vec::new();
    let mut step = destroy_framebuffer(framebuffer_object);
    loop {
        match step {
            Step::Done(()) => return calls,
            Step::Call(call, state) => {
                calls.push(call);
                let reply: i32 = match call {
                    GLCall::GetInteger { parameter: DRAW_FRAMEBUFFER_BINDING } => draw,
                    GLCall::GetInteger { parameter: READ_FRAMEBUFFER_BINDING } => read,
                    _ => 0,
                };
                step = state.step(&mut (), reply);
            }
        }
    }
}

const ASK_DRAW: GLCall = GLCall::GetInteger { parameter: DRAW_FRAMEBUFFER_BINDING };

const ASK_READ: GLCall = GLCall::GetInteger { parameter: READ_FRAMEBUFFER_BINDING };

const UNBIND_DRAW: GLCall = GLCall::BindFramebuffer { target: DRAW_FRAMEBUFFER, framebuffer: 0 };

const UNBIND_READ: GLCall = GLCall::BindFramebuffer { target: READ_FRAMEBUFFER, framebuffer: 0 };

#[test]
fn bound_framebuffer_is_unbound_and_deleted() {
    assert_eq!(
        destroy(7, 7, 7),
        vec![
            ASK_DRAW,
            ASK_READ,
            UNBIND_DRAW,
            UNBIND_READ,
            GLCall::DeleteFramebuffer { framebuffer: 7 },
        ]
    );
}

#[test]
fn unbound_framebuffer_is_deleted() {
    assert_eq!(
        destroy(7, 6, 0),
        vec![ASK_DRAW, ASK_READ, GLCall::DeleteFramebuffer { framebuffer: 7 }]
    );
}

#[test]
fn half_bound_framebuffer_is_unbound_there() {
    assert_eq!(
        destroy(7, 7, 3),
        vec![ASK_DRAW, ASK_READ, UNBIND_DRAW, GLCall::DeleteFramebuffer { framebuffer: 7 }]
    );
    assert_eq!(
        destroy(7, 3, 7),
        vec![ASK_DRAW, ASK_READ, UNBIND_READ, GLCall::DeleteFramebuffer { framebuffer: 7 }]
    );
}

#[test]
fn large_framebuffer_names_are_compared_as_unsigned() {
    assert_eq!(
        destroy(0xffff_ffff, -1, 1),
        vec![
            ASK_DRAW,
            ASK_READ,
            UNBIND_DRAW,
            GLCall::DeleteFramebuffer { framebuffer: 0xffff_ffff },
        ]
    );
}

#[test]
fn gl_constants_are_those_of_gl() {
    assert_eq!(DRAW_FRAMEBUFFER_BINDING, gl::DRAW_FRAMEBUFFER_BINDING);
    assert_eq!(READ_FRAMEBUFFER_BINDING, gl::READ_FRAMEBUFFER_BINDING);
    assert_eq!(DRAW_FRAMEBUFFER, gl::DRAW_FRAMEBUFFER);
    assert_eq!(READ_FRAMEBUFFER, gl::READ_FRAMEBUFFER);
}

#[test]
fn functions_are_looked_up() {
    let device = Device {
        egl_display: 1,
        egl_device: 2,
        d3d11_device: 3,
        d3d_driver_type: 0,
        surface_bindings: SurfaceBindings::new(),
    };
    let context = Context {
        native_context: NativeContext::Borrowed(UnsafeEGLContextRef { egl_context: 4 }),
        gl_info: GLInfo::new(),
        color_surface: ColorSurface::External,
    };
    let lookup = device.get_proc_address(&context, "glViewport");
    assert_eq!(lookup.symbol_name, "glViewport");
    assert_eq!(lookup.finish(0x1234), Ok(0x1234));
    assert_eq!(lookup.finish(0), Err(Error::GLFunctionNotFound));
    assert_eq!(loader_address(lookup.finish(0x1234)), 0x1234);
    assert_eq!(loader_address(lookup.finish(0)), 0);
}
