# init_wrapper

A PID 1 shim that puts a volatile overlay file system over the original root
and then hands off to the real init. It performs the same operation as:

```
mount --make-private /
mount -t tmpfs -o lazytime,relatime,nodev,nosuid parentfs /run
mkdir -p /run/overlay/{lower,upper,work,merged}
mount -o bind / /run/overlay/lower
mount -t overlay -o rw,relatime,lowerdir=/run/overlay/lower,upperdir=/run/overlay/upper,workdir=/run/overlay/work,redirect_dir=on,uuid=on,metacopy=on,volatile rootfs /run/overlay/merged
mkdir -p /run/overlay/merged/oldroot
pivot_root /run/overlay/merged /run/overlay/merged/oldroot
cd /
mount --move /oldroot/run /run
umount -l /oldroot
rmdir /oldroot
rmdir /run/overlay/merged
exec /sbin/init
```

Creating a directory that is already there goes on, as `mkdir -p` does.

Layout:

- `src/` is the verified library: the replacement plan and the state machine
  that runs it (`overlay_root`), the system calls it asks for and the checks
  made before them (`syscalls`), the choice of the real init (`launch`), the
  log target and log records (`kmsg`), the log messages (`messages`), time
  differences (`tm`) and error
  numbers (`errors`).
- `app/` is the program: it performs the system calls, writes the log and
  feeds the outcomes back into the library.

Boot with `init=/sbin/init-wrapper` on the kernel command line.
