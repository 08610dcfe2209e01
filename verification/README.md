# slint-ohos

The OpenHarmony backend of the Slint toolkit, with its logic verified by Verus.

- `src/` is the verified library: the XComponent C types (`ohos`), input
  events and the window events they become (`input`), the backend's state
  and the steps of its event loop (`calloop_backend`), the display-side
  choices and the animation timer's state (`display`), the errors (`error`),
  and the status codes and messages answered to the native side (`status`).
- `app/` runs it: the calloop event loop, EGL through glutin, the toolkit
  platform traits, and the functions exported to C++ and JavaScript.
- `tests/` exercises the library.
